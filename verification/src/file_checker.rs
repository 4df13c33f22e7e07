use crate::asset_match::words_of;
use crate::text::{
    chars_of, lowercase_of, same, string_of, to_lowercase, trim_class, trimmed, CharClass,
};
use vstd::prelude::*;

verus! {

/// Why no checksum of a file could be had.
#[derive(Clone, Copy, Debug, PartialEq, Eq, Structural)]
pub enum ChecksumError {
    /// The hashing tool reported a failure.
    ToolFailed,
    /// The hashing tool printed nothing.
    EmptyOutput,
}

/// The checksum that the output of the hashing tool states: the output
/// without white space round it, in lower case.
pub open spec fn stated_checksum(output: Seq<char>) -> Seq<char> {
    lowercase_of(trimmed(output))
}

/// Whether a checksum that was computed is the expected one, letter case of
/// the expected one aside. The computed one is taken as it is.
pub open spec fn checksum_agrees(calculated: Seq<char>, expected: Seq<char>) -> bool {
    calculated == lowercase_of(expected)
}

/// Whether the first bytes of a file are those of an archive: at least four
/// bytes, `P`, `K`, and then 3, 5 or 7.
pub open spec fn archive_header(header: Seq<u8>) -> bool {
    &&& header.len() >= 4
    &&& header[0] == 0x50
    &&& header[1] == 0x4B
    &&& (header[2] == 0x03 || header[2] == 0x05 || header[2] == 0x07)
}

/// The arguments with which the shell computes the SHA3-256 checksum of a
/// file and prints it, with its output set to UTF-8.
pub open spec fn checksum_arguments_of(file_path: Seq<char>) -> Seq<Seq<char>> {
    seq![
        "-NoProfile"@,
        "-Command"@,
        "[System.Console]::OutputEncoding = [System.Console]::InputEncoding = [System.Text.Encoding]::UTF8;Get-FileHash -Path '"@
            + file_path + "' -Algorithm SHA3-256 | Select-Object -ExpandProperty Hash"@,
    ]
}

/// The arguments with which the shell computes the checksum of a file.
pub fn checksum_arguments(file_path: &str) -> (arguments: Vec<String>)
    ensures
        words_of(arguments@) == checksum_arguments_of(file_path@),
{
    let mut command: String = String::from_str(
        "[System.Console]::OutputEncoding = [System.Console]::InputEncoding = [System.Text.Encoding]::UTF8;Get-FileHash -Path '",
    );
    command.append(file_path);
    command.append("' -Algorithm SHA3-256 | Select-Object -ExpandProperty Hash");
    let arguments: Vec<String> = vec![
        String::from_str("-NoProfile"),
        String::from_str("-Command"),
        command,
    ];
    assert(words_of(arguments@) == checksum_arguments_of(file_path@));
    arguments
}

/// Reads the checksum of a file out of what the hashing tool gave back.
pub fn calculate_sha3_256(exit_success: bool, output: &str) -> (checksum: Result<
    String,
    ChecksumError,
>)
    ensures
        match checksum {
            Ok(hash) => exit_success && hash@ == stated_checksum(output@) && hash@.len() > 0,
            Err(ChecksumError::ToolFailed) => !exit_success,
            Err(ChecksumError::EmptyOutput) => exit_success && stated_checksum(output@).len() == 0,
        },
{
    if !exit_success {
        return Err(ChecksumError::ToolFailed);
    }
    let all: Vec<char> = chars_of(output);
    let kept: Vec<char> = trim_class(&all, CharClass::Whitespace);
    let text: String = string_of(&kept);
    let hash: String = to_lowercase(text.as_str());
    if hash.as_str().unicode_len() == 0 {
        return Err(ChecksumError::EmptyOutput);
    }
    Ok(hash)
}

/// Whether the checksum computed for a file is the expected one.
pub fn verify_sha3_256(calculated: &str, expected_hash: &str) -> (valid: bool)
    ensures
        valid == checksum_agrees(calculated@, expected_hash@),
{
    let expected: String = to_lowercase(expected_hash);
    let left: Vec<char> = chars_of(calculated);
    let right: Vec<char> = chars_of(expected.as_str());
    same(&left, &right)
}

/// Whether the first bytes of a file are those of an archive. This is the
/// weaker check that stands in where no checksum is known.
pub fn verify_zip_integrity(header: &[u8]) -> (valid: bool)
    ensures
        valid == archive_header(header@),
{
    header.len() >= 4 && header[0] == 0x50 && header[1] == 0x4B && (header[2] == 0x03
        || header[2] == 0x05 || header[2] == 0x07)
}

} // verus!
