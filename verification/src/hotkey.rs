//! Classification of global input events against the designated capture key.
//!
//! The operating-system hook delivers every input event; the filter decides
//! whether the event is the capture trigger (and is then consumed, starting a
//! capture batch) or passes through to the rest of the system unchanged.

use vstd::prelude::*;

verus! {

/// The keys the filter distinguishes. Every key other than the two candidate
/// capture keys is folded into `OtherKey`: the filter never reads it.
#[derive(Clone, Copy, PartialEq, Eq, Structural, Debug)]
pub enum KeyIdent {
    PrintScreen,
    F9,
    OtherKey,
}

/// The platform the process runs on, as far as the key mapping cares:
/// macOS has no PrintScreen key, every other platform does.
#[derive(Clone, Copy, PartialEq, Eq, Structural, Debug)]
pub enum Platform {
    MacOs,
    Mainstream,
}

/// One input event, reduced to what the filter reads: its kind and, for key
/// events, the identity of the key.
#[derive(Clone, Copy, PartialEq, Eq, Structural, Debug)]
pub enum InputEvent {
    KeyPress(KeyIdent),
    KeyRelease(KeyIdent),
    Other,
}

/// The filter's verdict on one event: suppress it and run a capture batch,
/// or deliver it onward unchanged.
#[derive(Clone, Copy, PartialEq, Eq, Structural, Debug)]
pub enum Verdict {
    Consume,
    PassThrough,
}

/// The single designated capture key of a platform: F9 on macOS (which has
/// no PrintScreen key), PrintScreen everywhere else.
pub open spec fn capture_key_spec(p: Platform) -> KeyIdent {
    match p {
        Platform::MacOs => KeyIdent::F9,
        Platform::Mainstream => KeyIdent::PrintScreen,
    }
}

/// Whether an event is the capture trigger: a press (never a release) of the
/// platform's designated capture key.
pub open spec fn is_capture_press(e: InputEvent, p: Platform) -> bool {
    match e {
        InputEvent::KeyPress(k) => k == capture_key_spec(p),
        _ => false,
    }
}

pub fn capture_key(p: Platform) -> (k: KeyIdent)
    ensures
        k == capture_key_spec(p),
{
    match p {
        Platform::MacOs => KeyIdent::F9,
        Platform::Mainstream => KeyIdent::PrintScreen,
    }
}

/// The hook callback's decision: consume exactly the press of the designated
/// capture key, pass every other event through. On `Consume` the caller runs
/// one capture batch before returning to the hook.
pub fn classify(e: &InputEvent, p: Platform) -> (v: Verdict)
    ensures
        v == Verdict::Consume <==> is_capture_press(*e, p),
        v == Verdict::Consume || v == Verdict::PassThrough,
{
    match e {
        InputEvent::KeyPress(k) => {
            if *k == capture_key(p) {
                Verdict::Consume
            } else {
                Verdict::PassThrough
            }
        },
        _ => Verdict::PassThrough,
    }
}

} // verus!
