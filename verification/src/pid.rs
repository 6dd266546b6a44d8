//! The pid file that remembers the server process across application restarts.
use vstd::prelude::*;
use crate::text::{
    all_digits, chars_of, digit_char, decimal, decimal_string, digits_value, is_ascii_digit, is_white_space,
    parse_u32, parse_u32_range, trim, trim_bounds, trim_start,
};

verus! {

/// The contents written to the pid file for process `pid`.
pub open spec fn pid_file_text(pid: u32) -> Seq<char> {
    decimal(pid as nat)
}

/// The pid that a pid file with contents `text` names, if any: the trimmed contents
/// read as an unsigned 32-bit number.
pub open spec fn pid_from_text(text: Seq<char>) -> Option<u32> {
    parse_u32(trim(text))
}

/// The contents to write to the pid file for process `pid` (its decimal notation).
pub fn format_pid(pid: u32) -> (r: String)
    ensures
        r@ == pid_file_text(pid),
{
    decimal_string(pid as u64)
}

/// The pid that the pid file contents `text` name, or `None` when they name none.
pub fn parse_pid(text: &str) -> (r: Option<u32>)
    ensures
        r == pid_from_text(text@),
{
    let v = chars_of(text);
    let (a, b) = trim_bounds(&v, 0, v.len());
    assert(v@.subrange(0, v@.len() as int) =~= v@);
    parse_u32_range(&v, a, b)
}

proof fn lemma_decimal_digits(n: nat)
    ensures
        decimal(n).len() >= 1,
        all_digits(decimal(n)),
        digits_value(decimal(n)) == n,
    decreases n,
{
    if n < 10 {
        assert(decimal(n).drop_last() =~= Seq::<char>::empty());
        assert((digit_char(n as int) as u32) == n + 48);
        assert(decimal(n).last() == digit_char(n as int));
        assert(digits_value(decimal(n)) == digits_value(decimal(n).drop_last()) * 10 + ((
        decimal(n).last() as u32) - 48) as nat);
    } else {
        assert((digit_char((n % 10) as int) as u32) == n % 10 + 48);
        lemma_decimal_digits(n / 10);
        assert(decimal(n).drop_last() =~= decimal(n / 10));
        assert(decimal(n).last() == digit_char((n % 10) as int));
        assert(n == (n / 10) * 10 + n % 10);
        assert(all_digits(decimal(n))) by {
            assert forall|i: int| 0 <= i < decimal(n).len() implies is_ascii_digit(
                #[trigger] decimal(n)[i],
            ) by {
                if i < decimal(n).len() - 1 {
                    assert(decimal(n)[i] == decimal(n / 10)[i]);
                }
            }
        }
    }
}

proof fn lemma_digits_not_trimmed(s: Seq<char>)
    requires
        s.len() >= 1,
        all_digits(s),
    ensures
        trim(s) == s,
{
    assert(!is_white_space(s[0]));
    assert(trim_start(s) == s);
    assert(!is_white_space(s.last()));
}

/// Reading the pid file gives back the pid that was written to it.
pub proof fn law_pid_file_round_trip(pid: u32)
    ensures
        pid_from_text(pid_file_text(pid)) == Some(pid),
{
    lemma_decimal_digits(pid as nat);
    lemma_digits_not_trimmed(decimal(pid as nat));
    assert(decimal(pid as nat)[0] != '+') by {
        assert(is_ascii_digit(decimal(pid as nat)[0]));
    }
}


/// Whether killing a process counts as done: the kill call returned 0, or it failed
/// because no such process exists (the system error `not_found_code`, `ESRCH`).
pub fn kill_succeeded(ret: i32, os_error: Option<i32>, not_found_code: i32) -> (r: bool)
    ensures
        r == (ret == 0 || os_error == Some(not_found_code)),
{
    if ret == 0 {
        return true;
    }
    match os_error {
        Some(code) => code == not_found_code,
        None => false,
    }
}

} // verus!
