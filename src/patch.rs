use vstd::prelude::*;

verus! {

/// What applying the unified diff `patch` to `original` gives: the patched
/// bytes, or nothing when the patch does not parse or does not apply.
pub uninterp spec fn patched(original: Seq<u8>, patch: Seq<u8>) -> Option<Seq<u8>>;

/// The message of the failure when `patch` does not parse or does not
/// apply to `original`.
pub uninterp spec fn patch_error(original: Seq<u8>, patch: Seq<u8>) -> Seq<char>;

pub open spec fn is_digit(c: u8) -> bool {
    0x30u8 <= c && c <= 0x39u8
}

/// The scan of the first `i` bytes of a patch, line by line: how many bytes
/// of the current line were read (counted up to 5); whether the scan is in
/// the ranges of a hunk header, which run from after a leading "@@ " to the
/// first " @@" that follows; and how many significant digits (leading zeros
/// left out) end the bytes read so far.
pub open spec fn scan_state(p: Seq<u8>, i: int) -> (int, bool, int)
    decreases i,
{
    if i <= 0 || i > p.len() {
        (0, false, 0)
    } else {
        let (col, ranges, run) = scan_state(p, i - 1);
        let c = p[i - 1];
        if c == 0x0au8 {
            (0, false, 0)
        } else {
            (
                if col < 5 { col + 1 } else { 5 },
                if col == 2 {
                    p[i - 3] == 0x40u8 && p[i - 2] == 0x40u8 && c == 0x20u8
                } else if col >= 5 && p[i - 3] == 0x20u8 && p[i - 2] == 0x40u8 && c == 0x40u8 {
                    false
                } else {
                    ranges
                },
                if !is_digit(c) || (run == 0 && c == 0x30u8) { 0 } else { run + 1 },
            )
        }
    }
}

/// No number in the ranges of a hunk header has more than nine significant
/// digits, so each range start and length, and their sum, fits well inside
/// `usize`. Digits elsewhere (in hunk lines, or in the context text after
/// the closing " @@") do not count.
pub open spec fn hunk_ranges_short(p: Seq<u8>) -> bool {
    forall|i: int| 0 <= i <= p.len() ==> !(#[trigger] scan_state(p, i).1 && scan_state(p, i).2 > 9)
}

/// Whether the numbers in the hunk header ranges of `p` have at most nine
/// significant digits.
pub fn check_hunk_ranges(p: &[u8]) -> (r: bool)
    ensures
        r == hunk_ranges_short(p@),
{
    let mut col: usize = 0;
    let mut ranges = false;
    let mut run: usize = 0;
    let mut i: usize = 0;
    while i < p.len()
        invariant
            i <= p@.len(),
            run <= i,
            col <= 5,
            col <= i,
            scan_state(p@, i as int) == (col as int, ranges, run as int),
            forall|k: int| 0 <= k <= i ==> !(#[trigger] scan_state(p@, k).1 && scan_state(p@, k).2 > 9),
        decreases p@.len() - i,
    {
        let c = p[i];
        if c == 0x0au8 {
            col = 0;
            ranges = false;
            run = 0;
        } else {
            if col == 2 {
                ranges = p[i - 2] == 0x40u8 && p[i - 1] == 0x40u8 && c == 0x20u8;
            } else if col >= 5 && p[i - 2] == 0x20u8 && p[i - 1] == 0x40u8 && c == 0x40u8 {
                ranges = false;
            }
            if col < 5 {
                col = col + 1;
            }
            if !(0x30u8 <= c && c <= 0x39u8) || (run == 0 && c == 0x30u8) {
                run = 0;
            } else {
                run = run + 1;
            }
        }
        i = i + 1;
        if ranges && run > 9 {
            assert(scan_state(p@, i as int).1 && scan_state(p@, i as int).2 > 9);
            return false;
        }
    }
    true
}

/// Relies on diffy::Patch::from_bytes, which parses a unified diff, and on
/// diffy::apply_bytes, which applies it: both depend on their arguments
/// alone. On failure the error's text is handed back. The parser adds the
/// start and length of each hunk range, so a patch whose ranges hold longer
/// numbers is left out.
#[verifier::external_body]
pub(crate) fn apply_patch(original: &[u8], patch: &[u8]) -> (r: Result<Vec<u8>, String>)
    requires
        hunk_ranges_short(patch@),
    ensures
        r is Ok <==> patched(original@, patch@) is Some,
        r matches Ok(v) ==> patched(original@, patch@) == Some(v@),
        r matches Err(e) ==> e@ == patch_error(original@, patch@),
{
    match diffy::Patch::from_bytes(patch) {
        Ok(p) => diffy::apply_bytes(original, &p).map_err(|e| e.to_string()),
        Err(e) => Err(e.to_string()),
    }
}

} // verus!
