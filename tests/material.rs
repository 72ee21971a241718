use wgpu_scene::material::{MaterialLoader, TextureRequest};

fn req(material: usize, is_normal_map: bool) -> TextureRequest {
    TextureRequest {
        material,
        is_normal_map,
    }
}

#[test]
fn requests_diffuse_then_normal_per_material() {
    let mut l: MaterialLoader<&str, String> = MaterialLoader::new(2);
    let mut seen = Vec::new();
    let names = ["d0", "n0", "d1", "n1"];
    let mut k = 0;
    while let Some(r) = l.next_request() {
        seen.push(r);
        l.accept(Ok(names[k]));
        k += 1;
    }
    assert_eq!(
        seen,
        vec![req(0, false), req(0, true), req(1, false), req(1, true)]
    );
    assert_eq!(l.finish(), Ok(vec![("d0", "n0"), ("d1", "n1")]));
}

#[test]
fn missing_diffuse_fails_whole_load() {
    let mut l: MaterialLoader<&str, String> = MaterialLoader::new(2);
    assert_eq!(l.next_request(), Some(req(0, false)));
    l.accept(Ok("d0"));
    l.accept(Ok("n0"));
    assert_eq!(l.next_request(), Some(req(1, false)));
    l.accept(Err("missing: textures/absent.png".to_string()));
    assert_eq!(l.next_request(), None);
    assert_eq!(
        l.finish(),
        Err("missing: textures/absent.png".to_string())
    );
}

#[test]
fn no_materials_finish_at_once() {
    let l: MaterialLoader<u8, String> = MaterialLoader::new(0);
    assert_eq!(l.next_request(), None);
    assert_eq!(l.finish(), Ok(Vec::new()));
}
