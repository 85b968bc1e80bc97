use vstd::prelude::*;

verus! {

/// Length of a boot-keyboard input report: modifiers, a reserved byte and six
/// key codes.
pub const REPORT_LEN: usize = 8;

/// HID usage code of the key `a`.
pub const KEY_A: u8 = 4;

/// The report sent for one scan of the key matrix: the key `a` in the first
/// key slot while the key is pressed, no key otherwise.
pub open spec fn report_for(key_pressed: bool) -> Seq<u8> {
    if key_pressed {
        seq![0u8, 0, 4, 0, 0, 0, 0, 0]
    } else {
        seq![0u8, 0, 0, 0, 0, 0, 0, 0]
    }
}

/// The input report to send for the state of the single key.
pub fn keyboard_report(key_pressed: bool) -> (report: [u8; 8])
    ensures
        report@ == report_for(key_pressed),
        report@[2] == (if key_pressed { KEY_A } else { 0u8 }),
        forall|i: int| 0 <= i < REPORT_LEN && i != 2 ==> #[trigger] report@[i] == 0,
{
    if key_pressed {
        [0, 0, KEY_A, 0, 0, 0, 0, 0]
    } else {
        [0, 0, 0, 0, 0, 0, 0, 0]
    }
}

} // verus!
