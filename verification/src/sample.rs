//! One sample of the two cluster frequencies, taken from the text that the
//! power metrics utility printed.

use vstd::prelude::*;
use vstd::utf8::*;
use crate::numeral::{is_numeral, numeral_of, text_view, zero_numeral, Reading};
use crate::search::{capture_group, capture_view, captured_group, pattern_compiles};

verus! {

/// Declares `std::string::FromUtf8Error`, the error of bytes that are not
/// UTF-8. It is carried through unread.
#[verifier::external_type_specification]
#[verifier::external_body]
pub struct ExFromUtf8Error(std::string::FromUtf8Error);

/// The pattern of the performance cluster's field.
pub const P_CLUSTER_PATTERN: &'static str = r"P-Cluster HW active frequency: (\d+\.?\d*) MHz";

/// The pattern of the efficiency cluster's field.
pub const E_CLUSTER_PATTERN: &'static str = r"E-Cluster HW active frequency: (\d+\.?\d*) MHz";

/// The group of a field's pattern that holds the numeral: one or more
/// digits, optionally a point and further digits.
pub const NUMERAL_GROUP: usize = 1;

/// The frequencies of both clusters at one instant.
#[derive(Debug, PartialEq, Eq)]
pub struct CpuFrequency {
    /// Frequency of the performance cluster, in MHz.
    pub p_cluster: Reading,
    /// Frequency of the efficiency cluster, in MHz.
    pub e_cluster: Reading,
    /// When the sample was taken, in seconds since the Unix epoch.
    pub timestamp: u64,
}

/// Why no sample could be taken from the utility's output.
#[derive(Debug)]
pub enum SampleError {
    /// The output is not UTF-8.
    InvalidUtf8(std::string::FromUtf8Error),
    /// A field's pattern was refused by the pattern compiler.
    Pattern(regex::Error),
}

/// What the performance cluster's pattern captures in `text`.
pub open spec fn p_cluster_field(text: Seq<char>) -> Option<Seq<char>> {
    captured_group(P_CLUSTER_PATTERN@, text, NUMERAL_GROUP as nat)
}

/// What the efficiency cluster's pattern captures in `text`.
pub open spec fn e_cluster_field(text: Seq<char>) -> Option<Seq<char>> {
    captured_group(E_CLUSTER_PATTERN@, text, NUMERAL_GROUP as nat)
}

/// Both field patterns compile.
pub open spec fn patterns_compile() -> bool {
    pattern_compiles(P_CLUSTER_PATTERN@) && pattern_compiles(E_CLUSTER_PATTERN@)
}

/// The numerals that a sample taken from `text` holds, performance cluster
/// first.
pub open spec fn sampled_numerals(text: Seq<char>) -> (Seq<char>, Seq<char>) {
    (numeral_of(p_cluster_field(text)), numeral_of(e_cluster_field(text)))
}

/// A sample is owed for `output`: it is valid UTF-8 and both field patterns
/// compile. What the fields hold plays no part in it.
pub open spec fn sample_owed(output: Seq<u8>) -> bool {
    valid_utf8(output) && patterns_compile()
}

/// Where the patterns compile, only output that is not valid UTF-8 is
/// refused.
pub proof fn only_bad_encoding_is_refused(output: Seq<u8>)
    requires
        patterns_compile(),
    ensures
        sample_owed(output) <==> valid_utf8(output),
{
}

/// Where both fields are found in the output and their numerals are well
/// formed, a sample is owed and holds exactly those two numerals.
pub proof fn well_formed_fields_are_kept(output: Seq<u8>, p: Seq<char>, e: Seq<char>)
    requires
        valid_utf8(output),
        patterns_compile(),
        p_cluster_field(decode_utf8(output)) == Some(p),
        e_cluster_field(decode_utf8(output)) == Some(e),
        is_numeral(p),
        is_numeral(e),
    ensures
        sample_owed(output),
        sampled_numerals(decode_utf8(output)) == (p, e),
{
}

/// A field that is not found in the output does not fail the sample: the
/// sample is owed all the same, the field reads zero, and the other field
/// reads what it reads by itself.
pub proof fn missing_field_reads_zero(output: Seq<u8>)
    requires
        valid_utf8(output),
        patterns_compile(),
    ensures
        sample_owed(output),
        p_cluster_field(decode_utf8(output)) is None ==> {
            &&& sampled_numerals(decode_utf8(output)).0 == zero_numeral()
            &&& sampled_numerals(decode_utf8(output)).1 == numeral_of(
                e_cluster_field(decode_utf8(output)),
            )
        },
        e_cluster_field(decode_utf8(output)) is None ==> {
            &&& sampled_numerals(decode_utf8(output)).1 == zero_numeral()
            &&& sampled_numerals(decode_utf8(output)).0 == numeral_of(
                p_cluster_field(decode_utf8(output)),
            )
        },
{
}

/// A field that is found but whose numeral is malformed does not fail the
/// sample either: the sample is owed, the field reads zero, and the other
/// field reads what it reads by itself.
pub proof fn malformed_field_reads_zero(output: Seq<u8>)
    requires
        valid_utf8(output),
        patterns_compile(),
    ensures
        sample_owed(output),
        p_cluster_field(decode_utf8(output)) matches Some(p) && !is_numeral(p) ==> {
            &&& sampled_numerals(decode_utf8(output)).0 == zero_numeral()
            &&& sampled_numerals(decode_utf8(output)).1 == numeral_of(
                e_cluster_field(decode_utf8(output)),
            )
        },
        e_cluster_field(decode_utf8(output)) matches Some(e) && !is_numeral(e) ==> {
            &&& sampled_numerals(decode_utf8(output)).1 == zero_numeral()
            &&& sampled_numerals(decode_utf8(output)).0 == numeral_of(
                p_cluster_field(decode_utf8(output)),
            )
        },
{
}

/// Decodes bytes with `String::from_utf8`.
///
/// Trusted, not proved: the call succeeds exactly on valid UTF-8, and the
/// text it returns is the decoding of the bytes.
#[verifier::external_body]
fn decode_output(bytes: Vec<u8>) -> (r: Result<String, std::string::FromUtf8Error>)
    ensures
        r is Ok <==> valid_utf8(bytes@),
        r matches Ok(text) ==> text@ == decode_utf8(bytes@),
{
    String::from_utf8(bytes)
}

fn borrow_capture(capture: &Option<String>) -> (r: Option<&str>)
    ensures
        text_view(r) == capture_view(*capture),
{
    match capture {
        Some(s) => Some(s.as_str()),
        None => None,
    }
}

impl CpuFrequency {
    /// Builds the sample from what the searches for the two field patterns
    /// captured in their numeral groups. Each field stands on its own: a
    /// capture that is absent or malformed gives a zero reading and leaves
    /// the other field as it is.
    ///
    /// Well formed is what the numeral group of the patterns can hold in
    /// ASCII digits. Among the texts that those groups can capture, these are
    /// the ones that read as floating-point numbers; a text of another shape,
    /// such as `1e5`, `.5`, `+3` or `inf`, is no capture of those groups and
    /// reads zero here.
    pub fn from_captures(
        p_capture: Option<String>,
        e_capture: Option<String>,
        timestamp: u64,
    ) -> (sample: CpuFrequency)
        ensures
            sample.p_cluster@ == numeral_of(capture_view(p_capture)),
            sample.e_cluster@ == numeral_of(capture_view(e_capture)),
            sample.timestamp == timestamp,
    {
        CpuFrequency {
            p_cluster: Reading::from_capture(borrow_capture(&p_capture)),
            e_cluster: Reading::from_capture(borrow_capture(&e_capture)),
            timestamp,
        }
    }
}

/// Takes a sample from the bytes that the utility wrote to its standard
/// output, stamped with `timestamp`.
///
/// A sample is returned exactly when the output is valid UTF-8 and both
/// field patterns compile. It holds for each field the numeral that was
/// captured, or zero where the field is absent or its numeral malformed:
/// neither an absent nor a malformed field fails the call. Output that is
/// not UTF-8 is refused as it is, with nothing decoded; valid output is
/// refused only where a pattern does not compile.
pub fn get_cpu_frequency(output: Vec<u8>, timestamp: u64) -> (r: Result<CpuFrequency, SampleError>)
    ensures
        r is Ok <==> sample_owed(output@),
        match r {
            Ok(sample) => {
                &&& (sample.p_cluster@, sample.e_cluster@) == sampled_numerals(
                    decode_utf8(output@),
                )
                &&& sample.timestamp == timestamp
            },
            Err(SampleError::InvalidUtf8(_)) => !valid_utf8(output@),
            Err(SampleError::Pattern(_)) => valid_utf8(output@) && !patterns_compile(),
        },
{
    let text = match decode_output(output) {
        Ok(text) => text,
        Err(e) => {
            return Err(SampleError::InvalidUtf8(e));
        },
    };
    let p_capture = match capture_group(P_CLUSTER_PATTERN, text.as_str(), NUMERAL_GROUP) {
        Ok(capture) => capture,
        Err(e) => {
            return Err(SampleError::Pattern(e));
        },
    };
    let e_capture = match capture_group(E_CLUSTER_PATTERN, text.as_str(), NUMERAL_GROUP) {
        Ok(capture) => capture,
        Err(e) => {
            return Err(SampleError::Pattern(e));
        },
    };
    Ok(CpuFrequency::from_captures(p_capture, e_capture, timestamp))
}

} // verus!
