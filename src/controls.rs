use vstd::prelude::*;

use crate::input::{Input, Key};

verus! {

/// A coordinate axis of world space.
#[derive(Clone, Copy, Debug, PartialEq, Eq, Structural)]
pub enum Axis {
    X,
    Y,
    Z,
}

/// Which way along an axis (or which way round it) a command acts.
#[derive(Clone, Copy, Debug, PartialEq, Eq, Structural)]
pub enum Direction {
    Positive,
    Negative,
}

/// One frame's worth of a held key, as an action on the player or the
/// camera. The rates at which these act are the caller's.
#[derive(Clone, Copy, Debug, PartialEq, Eq, Structural)]
pub enum Command {
    /// Move the player entity along an axis.
    MovePlayer(Axis, Direction),
    /// Dolly the camera towards (positive) or away from its target.
    CameraForward(Direction),
    /// Pan the camera right (positive) or left.
    CameraStrafe(Direction),
    /// Orbit the camera eye about an axis through the origin.
    CameraRotate(Axis, Direction),
    /// Leave the game.
    Exit,
}

/// The command each bound key stands for.
pub open spec fn binding(key: Key) -> Command {
    match key {
        Key::KeyW => Command::MovePlayer(Axis::X, Direction::Positive),
        Key::KeyA => Command::MovePlayer(Axis::Z, Direction::Negative),
        Key::KeyS => Command::MovePlayer(Axis::X, Direction::Negative),
        Key::KeyD => Command::MovePlayer(Axis::Z, Direction::Positive),
        Key::Space => Command::MovePlayer(Axis::Y, Direction::Positive),
        Key::ArrowUp => Command::CameraForward(Direction::Positive),
        Key::ArrowLeft => Command::CameraStrafe(Direction::Negative),
        Key::ArrowDown => Command::CameraForward(Direction::Negative),
        Key::ArrowRight => Command::CameraStrafe(Direction::Positive),
        Key::KeyU => Command::CameraRotate(Axis::Z, Direction::Positive),
        Key::KeyH => Command::CameraRotate(Axis::Y, Direction::Negative),
        Key::KeyJ => Command::CameraRotate(Axis::Z, Direction::Negative),
        Key::KeyK => Command::CameraRotate(Axis::Y, Direction::Positive),
        Key::Escape => Command::Exit,
    }
}

/// The order in which held keys are acted on within one frame.
pub open spec fn binding_order() -> Seq<Key> {
    seq![
        Key::KeyW,
        Key::KeyA,
        Key::KeyS,
        Key::KeyD,
        Key::Space,
        Key::ArrowUp,
        Key::ArrowLeft,
        Key::ArrowDown,
        Key::ArrowRight,
        Key::KeyU,
        Key::KeyH,
        Key::KeyJ,
        Key::KeyK,
        Key::Escape,
    ]
}

/// The commands for a set of held keys: one per held key, in binding order.
pub open spec fn held_commands(held: Set<Key>) -> Seq<Command> {
    binding_order().filter(|k: Key| held.contains(k)).map_values(|k: Key| binding(k))
}

/// The command bound to `key`.
pub fn command_for(key: Key) -> (r: Command)
    ensures
        r == binding(key),
{
    match key {
        Key::KeyW => Command::MovePlayer(Axis::X, Direction::Positive),
        Key::KeyA => Command::MovePlayer(Axis::Z, Direction::Negative),
        Key::KeyS => Command::MovePlayer(Axis::X, Direction::Negative),
        Key::KeyD => Command::MovePlayer(Axis::Z, Direction::Positive),
        Key::Space => Command::MovePlayer(Axis::Y, Direction::Positive),
        Key::ArrowUp => Command::CameraForward(Direction::Positive),
        Key::ArrowLeft => Command::CameraStrafe(Direction::Negative),
        Key::ArrowDown => Command::CameraForward(Direction::Negative),
        Key::ArrowRight => Command::CameraStrafe(Direction::Positive),
        Key::KeyU => Command::CameraRotate(Axis::Z, Direction::Positive),
        Key::KeyH => Command::CameraRotate(Axis::Y, Direction::Negative),
        Key::KeyJ => Command::CameraRotate(Axis::Z, Direction::Negative),
        Key::KeyK => Command::CameraRotate(Axis::Y, Direction::Positive),
        Key::Escape => Command::Exit,
    }
}

/// The commands that the currently held keys call for this frame, one per
/// held key, in binding order.
pub fn commands(input: &Input) -> (r: Vec<Command>)
    ensures
        r@ == held_commands(input@),
{
    let order: Vec<Key> = vec![
        Key::KeyW,
        Key::KeyA,
        Key::KeyS,
        Key::KeyD,
        Key::Space,
        Key::ArrowUp,
        Key::ArrowLeft,
        Key::ArrowDown,
        Key::ArrowRight,
        Key::KeyU,
        Key::KeyH,
        Key::KeyJ,
        Key::KeyK,
        Key::Escape,
    ];
    assert(order@ =~= binding_order());
    let ghost held = input@;
    let ghost pred = |k: Key| held.contains(k);
    let ghost bind = |k: Key| binding(k);
    let mut r: Vec<Command> = Vec::new();
    let mut i: usize = 0;
    while i < order.len()
        invariant
            0 <= i <= order@.len(),
            order@ == binding_order(),
            held == input@,
            pred == (|k: Key| held.contains(k)),
            bind == (|k: Key| binding(k)),
            r@ == order@.subrange(0, i as int).filter(pred).map_values(bind),
        decreases order@.len() - i,
    {
        let key = order[i];
        let ghost prefix = order@.subrange(0, i as int);
        let ghost next = order@.subrange(0, i as int + 1);
        proof {
            assert(next.drop_last() =~= prefix);
            assert(next.last() == key);
        }
        if input.is_pressed(key) {
            r.push(command_for(key));
            proof {
                assert(pred(key));
                assert(next.filter(pred) == prefix.filter(pred).push(key)) by {
                    reveal(Seq::filter);
                }
                assert(r@ =~= next.filter(pred).map_values(bind));
            }
        } else {
            proof {
                assert(!pred(key));
                assert(next.filter(pred) == prefix.filter(pred)) by {
                    reveal(Seq::filter);
                }
            }
        }
        i = i + 1;
    }
    assert(order@.subrange(0, order@.len() as int) =~= order@);
    r
}

} // verus!
