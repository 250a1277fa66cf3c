//! What the controller writes to reset the emulated temperatures: every
//! thermal zone's `emul_temp` node, and each sensor index of the shell
//! temperature node.

use vstd::prelude::*;
use crate::text::{append_decimal, chars_of, int_decimal, nat_decimal};

verus! {

/// The emulated temperature that turns the emulation off.
pub const RESET_TARGET: i32 = 0;
/// The battery temperature written for every shell sensor, in m°C.
pub const FAKE_BATT_TEMP: i32 = 36000;
/// The last sensor index of the shell temperature node.
pub const SHELL_TEMP_INDEX_MAX: u32 = 2;

/// The line written to the shell temperature node for sensor `index`:
/// the index, a space and the fake battery temperature.
pub open spec fn fake_batt_temp_payload(index: nat) -> Seq<char> {
    nat_decimal(index) + seq![' '] + int_decimal(FAKE_BATT_TEMP as int)
}

/// The lines written to the shell temperature node, one per sensor index
/// from zero to the last.
pub fn fake_batt_temp_payloads() -> (r: Vec<String>)
    ensures
        r.len() == SHELL_TEMP_INDEX_MAX + 1,
        forall|i: int| 0 <= i < r.len() ==> #[trigger] r[i]@ == fake_batt_temp_payload(i as nat),
{
    let mut out: Vec<String> = Vec::new();
    let mut index: u32 = 0;
    while index <= SHELL_TEMP_INDEX_MAX
        invariant
            index <= SHELL_TEMP_INDEX_MAX + 1,
            out.len() == index,
            forall|i: int| 0 <= i < out.len() ==> #[trigger] out[i]@ == fake_batt_temp_payload(i as nat),
        decreases SHELL_TEMP_INDEX_MAX + 1 - index,
    {
        let mut line = String::new();
        append_decimal(&mut line, index as i64);
        proof {
            reveal_strlit(" ");
        }
        line.append(" ");
        append_decimal(&mut line, FAKE_BATT_TEMP as i64);
        proof {
            assert(int_decimal(index as int) == nat_decimal(index as nat));
            assert(line@ =~= fake_batt_temp_payload(index as nat));
        }
        out.push(line);
        index = index + 1;
    }
    out
}

/// The line written to a thermal zone's `emul_temp` node for `target`.
pub fn emul_temp_payload(target: i32) -> (r: String)
    ensures
        r@ == int_decimal(target as int).push('\n'),
{
    let mut line = String::new();
    append_decimal(&mut line, target as i64);
    proof {
        reveal_strlit("\n");
    }
    line.append("\n");
    proof {
        assert(line@ =~= int_decimal(target as int).push('\n'));
    }
    line
}

/// The name prefix of thermal zone directories.
pub open spec fn thermal_zone_prefix() -> Seq<char> {
    "thermal_zone"@
}

/// Whether a directory entry's name marks it as a thermal zone: it starts
/// with `thermal_zone`.
pub fn is_thermal_zone_name(name: &str) -> (r: bool)
    ensures
        r == (name@.len() >= thermal_zone_prefix().len() && name@.subrange(
            0,
            thermal_zone_prefix().len() as int,
        ) == thermal_zone_prefix()),
{
    let chars = chars_of(name);
    let prefix = chars_of("thermal_zone");
    if chars.len() < prefix.len() {
        return false;
    }
    let mut i: usize = 0;
    while i < prefix.len()
        invariant
            i <= prefix.len() <= chars.len(),
            prefix@ == thermal_zone_prefix(),
            chars@ == name@,
            chars@.subrange(0, i as int) == prefix@.subrange(0, i as int),
        decreases prefix.len() - i,
    {
        if chars[i] != prefix[i] {
            proof {
                assert(chars@.subrange(0, prefix.len() as int)[i as int] == chars@[i as int]);
            }
            return false;
        }
        proof {
            assert(chars@.subrange(0, i + 1) =~= chars@.subrange(0, i as int).push(chars@[i as int]));
            assert(prefix@.subrange(0, i + 1) =~= prefix@.subrange(0, i as int).push(prefix@[i as int]));
        }
        i = i + 1;
    }
    proof {
        assert(prefix@.subrange(0, prefix.len() as int) =~= prefix@);
    }
    true
}

} // verus!
