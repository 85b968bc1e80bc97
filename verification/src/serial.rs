use vstd::prelude::*;

verus! {

/// The byte echoed back for a received byte: an ASCII lower-case letter
/// becomes its upper-case letter, every other byte stays as it is.
pub open spec fn echoed(b: u8) -> u8 {
    if 0x61 <= b && b <= 0x7a {
        (b - 0x20) as u8
    } else {
        b
    }
}

/// The bytes echoed back for the received bytes, in upper case.
pub fn echo_upper(received: &[u8]) -> (echo: Vec<u8>)
    ensures
        echo@ == received@.map_values(|b: u8| echoed(b)),
        echo@.len() == received@.len(),
        forall|j: int|
            0 <= j < received@.len() && 0x61 <= #[trigger] received@[j] <= 0x7a ==> echo@[j]
                == received@[j] - 0x20,
        forall|j: int|
            0 <= j < received@.len() && !(0x61 <= #[trigger] received@[j] <= 0x7a) ==> echo@[j]
                == received@[j],
{
    let mut echo: Vec<u8> = Vec::with_capacity(received.len());
    let mut i: usize = 0;
    while i < received.len()
        invariant
            i <= received@.len(),
            echo@.len() == i,
            forall|j: int| 0 <= j < i ==> echo@[j] == echoed(#[trigger] received@[j]),
        decreases received@.len() - i,
    {
        let c: u8 = received[i];
        let e: u8 = if 0x61 <= c && c <= 0x7a {
            let u: u8 = c & !0x20u8;
            assert(0x61 <= c && c <= 0x7a ==> c & !0x20u8 == c - 0x20) by (bit_vector);
            u
        } else {
            c
        };
        echo.push(e);
        i = i + 1;
    }
    assert(echo@ =~= received@.map_values(|b: u8| echoed(b)));
    echo
}

/// What one poll of the serial port sends back for the bytes it read: nothing
/// where it read none, else the bytes in upper case.
pub fn reply(received: &[u8]) -> (sent: Option<Vec<u8>>)
    ensures
        received@.len() == 0 <==> sent is None,
        sent matches Some(bytes) ==> bytes@ == received@.map_values(|b: u8| echoed(b)),
        sent matches Some(bytes) ==> bytes@.len() == received@.len() && (forall|j: int|
            0 <= j < received@.len() ==> #[trigger] bytes@[j] == if 0x61 <= received@[j] <= 0x7a {
                received@[j] - 0x20
            } else {
                received@[j] as int
            }),
{
    if received.len() == 0 {
        None
    } else {
        Some(echo_upper(received))
    }
}

/// An ASCII lower-case letter is echoed as its upper-case letter, which lies
/// 0x20 below it, among the upper-case letters.
pub proof fn lemma_lower_case_echoed_upper(b: u8)
    requires
        0x61 <= b <= 0x7a,
    ensures
        echoed(b) == b - 0x20,
        0x41 <= echoed(b) <= 0x5a,
{
}

/// Every byte that is not an ASCII lower-case letter (digits, spaces,
/// punctuation, upper-case letters, control and non-ASCII bytes) is echoed
/// unchanged.
pub proof fn lemma_other_bytes_echoed_unchanged(b: u8)
    requires
        !(0x61 <= b <= 0x7a),
    ensures
        echoed(b) == b,
{
}

/// The echo holds no lower-case letter, and it differs from what was received
/// exactly at the lower-case letters.
pub proof fn lemma_echo_has_no_lower_case(b: u8)
    ensures
        !(0x61 <= echoed(b) <= 0x7a),
        echoed(b) != b <==> 0x61 <= b <= 0x7a,
{
}

/// Echoing is idempotent: an upper-cased byte is echoed unchanged.
pub proof fn lemma_echoed_idempotent(b: u8)
    ensures
        echoed(echoed(b)) == echoed(b),
{
}

} // verus!
