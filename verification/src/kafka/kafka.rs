//! The version of librdkafka that the service runs with.
use vstd::prelude::*;
use vstd::string::StringExecFns;
use crate::format::{digits_value, hex_fixed, lemma_hex_round_trip, pow16, push_hex_fixed};

verus! {

/// `rdkafka::util::get_rdkafka_version`: the version number and name of the
/// librdkafka that is linked in. What they are depends on that library, so
/// nothing is stated of them.
#[verifier::external_body]
fn rdkafka_version() -> (version: (u16, String)) {
    rdkafka::util::get_rdkafka_version()
}

/// The line that reports a librdkafka version: its number in eight
/// hexadecimal digits, and its name.
pub open spec fn version_line_spec(number: u16, name: Seq<char>) -> Seq<char> {
    "rd_kafka_version: 0x"@ + hex_fixed(number as nat, 8) + ", "@ + name
}

/// The line that reports a librdkafka version.
pub fn version_line(number: u16, name: &str) -> (line: String)
    ensures
        line@ == version_line_spec(number, name@),
{
    let mut line = "rd_kafka_version: 0x".to_string();
    push_hex_fixed(&mut line, number as u64, 8);
    line.append(", ");
    line.append(name);
    line
}

/// The line that reports the version of the linked librdkafka.
pub fn log_version_info() -> (line: String)
    ensures
        exists|number: u16, name: Seq<char>| line@ == #[trigger] version_line_spec(number, name),
{
    let (number, name) = rdkafka_version();
    let line = version_line(number, name.as_str());
    assert(line@ == version_line_spec(number, name@));
    line
}

/// The version number in a version line has exactly eight hexadecimal
/// digits, and they read back as the number.
pub proof fn lemma_version_number_round_trip(number: u16)
    ensures
        hex_fixed(number as nat, 8).len() == 8,
        digits_value(hex_fixed(number as nat, 8), 16) == number,
{
    reveal_with_fuel(pow16, 9);
    assert(pow16(8) == 4294967296);
    lemma_hex_round_trip(number as nat, 8);
}

/// A version line is `rd_kafka_version: 0x`, then eight hexadecimal digits
/// that read back as the number, then `, ` and the name, for every number
/// and name.
pub proof fn lemma_version_line_parts(number: u16, name: Seq<char>)
    ensures
        version_line_spec(number, name).len() == 30 + name.len(),
        version_line_spec(number, name).subrange(0, 20) == "rd_kafka_version: 0x"@,
        digits_value(version_line_spec(number, name).subrange(20, 28), 16) == number,
        version_line_spec(number, name).subrange(28, 30) == ", "@,
        version_line_spec(number, name).subrange(30, 30 + name.len() as int) == name,
{
    reveal_strlit("rd_kafka_version: 0x");
    reveal_strlit(", ");
    lemma_version_number_round_trip(number);
    let l = version_line_spec(number, name);
    assert(l.subrange(0, 20) =~= "rd_kafka_version: 0x"@);
    assert(l.subrange(20, 28) =~= hex_fixed(number as nat, 8));
    assert(l.subrange(28, 30) =~= ", "@);
    assert(l.subrange(30, 30 + name.len() as int) =~= name);
}

} // verus!
