//! Limits on a finished recording.
use vstd::prelude::*;
use crate::text::{owned, push_chars};

verus! {

/// The largest WAV upload the speech-recognition service accepts: 25 MiB.
pub const MAX_WAV_BYTES: usize = 26214400;

/// The decimal digit `d`.
pub open spec fn digit(d: nat) -> char {
    ((d + 48) as u32) as char
}

/// `n` in decimal, as `Display` prints it.
pub open spec fn decimal(n: nat) -> Seq<char>
    decreases n,
{
    if n < 10 {
        seq![digit(n)]
    } else {
        decimal(n / 10).push(digit(n % 10))
    }
}

fn digit_char(d: usize) -> (c: char)
    requires
        d < 10,
    ensures
        c == digit(d as nat),
{
    let b: u8 = (d as u8) + 48;
    assert(b as u32 == d + 48);
    b as char
}

/// `n` printed in decimal.
pub fn decimal_string(n: usize) -> (r: String)
    ensures
        r@ == decimal(n as nat),
{
    let mut digits: Vec<char> = Vec::new();
    let mut m: usize = n;
    while m >= 10
        invariant
            decimal(n as nat) == decimal(m as nat) + digits@,
        decreases m,
    {
        let d = digit_char(m % 10);
        let ghost old_digits = digits@;
        digits.insert(0, d);
        assert(decimal(m as nat) == decimal((m / 10) as nat).push(digit((m % 10) as nat)));
        assert(decimal(m as nat) + old_digits =~= decimal((m / 10) as nat) + digits@);
        m = m / 10;
    }
    let ghost old_digits = digits@;
    digits.insert(0, digit_char(m));
    assert(decimal(n as nat) =~= digits@);
    let mut out = String::new();
    let len: usize = digits.len();
    push_chars(&mut out, &digits, 0, len);
    assert(digits@.subrange(0, len as int) =~= digits@);
    assert(out@ =~= digits@);
    out
}

/// The refusal of a recording that is too large to upload.
pub open spec fn too_large_message(len: nat) -> Seq<char> {
    "錄音超過 25MB 上限（"@ + decimal(len) + " bytes），請縮短單次錄音時間"@
}

/// A WAV recording of `len` bytes may be uploaded when it is at most
/// `MAX_WAV_BYTES`; a larger one is refused with its size.
pub fn check_wav_size(len: usize) -> (r: Result<(), String>)
    ensures
        len <= MAX_WAV_BYTES ==> r is Ok,
        len > MAX_WAV_BYTES ==> (r matches Err(m) && m@ == too_large_message(len as nat)),
{
    if len > MAX_WAV_BYTES {
        let mut m = owned("錄音超過 25MB 上限（");
        let n = decimal_string(len);
        m.append(n.as_str());
        m.append(" bytes），請縮短單次錄音時間");
        Err(m)
    } else {
        Ok(())
    }
}

} // verus!
