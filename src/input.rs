//! The camera controller: held movement keys and queued pointer motion.
use vstd::prelude::*;

verus! {

/// A key that the controller may see.
#[derive(Clone, Copy, Debug, PartialEq, Eq, Structural)]
pub enum Key {
    W,
    A,
    S,
    D,
    Up,
    Down,
    Left,
    Right,
    LShift,
    Space,
    Other,
}

/// One step of the camera along one of its axes, in one direction.
#[derive(Clone, Copy, Debug, PartialEq, Eq, Structural)]
pub enum Motion {
    Forward,
    Backward,
    Right,
    Left,
    Down,
    Up,
}

/// The motion that a key is bound to, if any.
pub open spec fn binding(k: Key) -> Option<Motion> {
    match k {
        Key::W | Key::Up => Some(Motion::Forward),
        Key::A | Key::Left => Some(Motion::Left),
        Key::S | Key::Down => Some(Motion::Backward),
        Key::D | Key::Right => Some(Motion::Right),
        Key::LShift => Some(Motion::Down),
        Key::Space => Some(Motion::Up),
        Key::Other => None,
    }
}

/// The sequence holding `m` when `b` holds, and nothing otherwise.
pub open spec fn step_if(b: bool, m: Motion) -> Seq<Motion> {
    if b {
        seq![m]
    } else {
        Seq::empty()
    }
}

/// What one frame update hands to the camera: the unit steps to take, in
/// order, and the pointer motion to apply as a (yaw, pitch) pair, if any.
pub struct FrameStep<S> {
    pub moves: Vec<Motion>,
    pub look: Option<(S, S)>,
}

/// Held movement keys and the pointer motion not yet applied.
///
/// `S` is the scalar type of the speeds and of the motion deltas; the
/// controller stores such values and hands them back, it does no arithmetic
/// on them.
pub struct CameraController<S> {
    pub move_speed: S,
    pub look_speed: S,
    pub is_forward_pressed: bool,
    pub is_backward_pressed: bool,
    pub is_left_pressed: bool,
    pub is_right_pressed: bool,
    pub is_down_pressed: bool,
    pub is_up_pressed: bool,
    pub cursor_move: Option<(S, S)>,
}

impl<S> CameraController<S> {
    /// Whether the key bound to `m` is held.
    pub open spec fn is_held(&self, m: Motion) -> bool {
        match m {
            Motion::Forward => self.is_forward_pressed,
            Motion::Backward => self.is_backward_pressed,
            Motion::Right => self.is_right_pressed,
            Motion::Left => self.is_left_pressed,
            Motion::Down => self.is_down_pressed,
            Motion::Up => self.is_up_pressed,
        }
    }

    /// The steps of one frame: each held motion once, in the order forward,
    /// backward, right, left, down, up.
    pub open spec fn held_moves(&self) -> Seq<Motion> {
        step_if(self.is_forward_pressed, Motion::Forward)
            + step_if(self.is_backward_pressed, Motion::Backward)
            + step_if(self.is_right_pressed, Motion::Right)
            + step_if(self.is_left_pressed, Motion::Left)
            + step_if(self.is_down_pressed, Motion::Down)
            + step_if(self.is_up_pressed, Motion::Up)
    }

    /// The controller after a key event: the motion bound to `key` is held
    /// exactly when `pressed`; everything else is kept.
    pub open spec fn after_key(self, key: Key, pressed: bool) -> Self {
        match binding(key) {
            Some(Motion::Forward) => CameraController { is_forward_pressed: pressed, ..self },
            Some(Motion::Backward) => CameraController { is_backward_pressed: pressed, ..self },
            Some(Motion::Right) => CameraController { is_right_pressed: pressed, ..self },
            Some(Motion::Left) => CameraController { is_left_pressed: pressed, ..self },
            Some(Motion::Down) => CameraController { is_down_pressed: pressed, ..self },
            Some(Motion::Up) => CameraController { is_up_pressed: pressed, ..self },
            None => self,
        }
    }

    /// The controller after a pointer motion: the pending motion is replaced.
    pub open spec fn after_look(self, delta: (S, S)) -> Self {
        CameraController { cursor_move: Some(delta), ..self }
    }

    /// The controller after a frame update: nothing is pending any more.
    pub open spec fn after_frame(self) -> Self {
        CameraController { cursor_move: None, ..self }
    }

    /// A controller with no key held and no pending motion.
    pub fn new(move_speed: S, look_speed: S) -> (r: Self)
        ensures
            r.move_speed == move_speed,
            r.look_speed == look_speed,
            forall|m: Motion| !r.is_held(m),
            r.cursor_move.is_none(),
    {
        CameraController {
            move_speed,
            look_speed,
            is_forward_pressed: false,
            is_backward_pressed: false,
            is_left_pressed: false,
            is_right_pressed: false,
            is_down_pressed: false,
            is_up_pressed: false,
            cursor_move: None,
        }
    }

    /// Records a key press or release; returns whether the key is bound.
    pub fn process_key(&mut self, key: Key, pressed: bool) -> (consumed: bool)
        ensures
            consumed == binding(key).is_some(),
            *final(self) == old(self).after_key(key, pressed),
    {
        match key {
            Key::W | Key::Up => {
                self.is_forward_pressed = pressed;
                true
            },
            Key::A | Key::Left => {
                self.is_left_pressed = pressed;
                true
            },
            Key::S | Key::Down => {
                self.is_backward_pressed = pressed;
                true
            },
            Key::D | Key::Right => {
                self.is_right_pressed = pressed;
                true
            },
            Key::LShift => {
                self.is_down_pressed = pressed;
                true
            },
            Key::Space => {
                self.is_up_pressed = pressed;
                true
            },
            Key::Other => false,
        }
    }

    /// Records pointer motion, already scaled, as a (yaw, pitch) pair. It
    /// replaces any motion still pending: only the latest one is applied.
    pub fn process_look(&mut self, delta: (S, S))
        ensures
            *final(self) == old(self).after_look(delta),
    {
        self.cursor_move = Some(delta);
    }

    /// Takes what one frame update applies to the camera, and clears the
    /// pending motion.
    pub fn take_frame_step(&mut self) -> (r: FrameStep<S>)
        ensures
            r.moves@ == old(self).held_moves(),
            r.look == old(self).cursor_move,
            *final(self) == old(self).after_frame(),
    {
        let mut moves: Vec<Motion> = Vec::new();
        if self.is_forward_pressed {
            moves.push(Motion::Forward);
        }
        if self.is_backward_pressed {
            moves.push(Motion::Backward);
        }
        if self.is_right_pressed {
            moves.push(Motion::Right);
        }
        if self.is_left_pressed {
            moves.push(Motion::Left);
        }
        if self.is_down_pressed {
            moves.push(Motion::Down);
        }
        if self.is_up_pressed {
            moves.push(Motion::Up);
        }
        proof {
            assert(moves@ =~= self.held_moves());
        }
        let look = self.cursor_move.take();
        FrameStep { moves, look }
    }
}

/// Of two pointer motions recorded before one frame update, the update hands
/// on the second alone, and nothing is pending after it.
pub proof fn lemma_last_look_wins<S>(c: CameraController<S>, first: (S, S), second: (S, S))
    ensures
        c.after_look(first).after_look(second).cursor_move == Some(second),
        c.after_look(first).after_look(second).after_frame().cursor_move.is_none(),
        c.after_look(first).after_look(second).held_moves() == c.held_moves(),
{
}

proof fn lemma_append_step(s: Seq<Motion>, b: bool, m: Motion)
    requires
        s.no_duplicates(),
        !s.contains(m),
    ensures
        (s + step_if(b, m)).no_duplicates(),
        forall|x: Motion| (s + step_if(b, m)).contains(x) <==> (s.contains(x) || (b && x == m)),
{
    let t = s + step_if(b, m);
    if !b {
        assert(t =~= s);
    } else {
        assert(t =~= s.push(m));
        assert(t[s.len() as int] == m);
        assert forall|x: Motion| t.contains(x) <==> (s.contains(x) || x == m) by {
            if t.contains(x) {
                let i = choose|i: int| 0 <= i < t.len() && t[i] == x;
                if i < s.len() {
                    assert(s[i] == x);
                }
            }
            if s.contains(x) {
                let i = choose|i: int| 0 <= i < s.len() && s[i] == x;
                assert(t[i] == x);
            }
        }
    }
}

/// A frame update takes one step for each held motion and for no other, and
/// never the same motion twice.
pub proof fn lemma_moves_are_held<S>(c: CameraController<S>)
    ensures
        forall|m: Motion| c.held_moves().contains(m) <==> c.is_held(m),
        c.held_moves().no_duplicates(),
{
    let s0 = Seq::<Motion>::empty();
    lemma_append_step(s0, c.is_forward_pressed, Motion::Forward);
    let s1 = s0 + step_if(c.is_forward_pressed, Motion::Forward);
    lemma_append_step(s1, c.is_backward_pressed, Motion::Backward);
    let s2 = s1 + step_if(c.is_backward_pressed, Motion::Backward);
    lemma_append_step(s2, c.is_right_pressed, Motion::Right);
    let s3 = s2 + step_if(c.is_right_pressed, Motion::Right);
    lemma_append_step(s3, c.is_left_pressed, Motion::Left);
    let s4 = s3 + step_if(c.is_left_pressed, Motion::Left);
    lemma_append_step(s4, c.is_down_pressed, Motion::Down);
    let s5 = s4 + step_if(c.is_down_pressed, Motion::Down);
    lemma_append_step(s5, c.is_up_pressed, Motion::Up);
    let s6 = s5 + step_if(c.is_up_pressed, Motion::Up);
    assert(s1 =~= step_if(c.is_forward_pressed, Motion::Forward));
    assert(s6 =~= c.held_moves());
    assert forall|m: Motion| s6.contains(m) <==> c.is_held(m) by {
        assert(!s0.contains(m));
        assert(s1.contains(m) <==> (c.is_forward_pressed && m == Motion::Forward));
        assert(s2.contains(m) <==> (s1.contains(m) || (c.is_backward_pressed && m
            == Motion::Backward)));
        assert(s3.contains(m) <==> (s2.contains(m) || (c.is_right_pressed && m == Motion::Right)));
        assert(s4.contains(m) <==> (s3.contains(m) || (c.is_left_pressed && m == Motion::Left)));
        assert(s5.contains(m) <==> (s4.contains(m) || (c.is_down_pressed && m == Motion::Down)));
        assert(s6.contains(m) <==> (s5.contains(m) || (c.is_up_pressed && m == Motion::Up)));
    }
}

/// Pressing a bound key and releasing it again leaves no motion of that key
/// held, and keeps every other key and the pending motion as they were.
pub proof fn lemma_press_release<S>(c: CameraController<S>, key: Key)
    ensures
        binding(key).is_some() ==> !c.after_key(key, true).after_key(key, false).is_held(
            binding(key).unwrap(),
        ),
        forall|m: Motion|
            binding(key) != Some(m) ==> (c.after_key(key, true).after_key(key, false).is_held(m)
                == c.is_held(m)),
        c.after_key(key, true).after_key(key, false).cursor_move == c.cursor_move,
{
}

} // verus!
