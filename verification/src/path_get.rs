use crate::text::{
    after_first, chars_of, contains, contains_text, count_trailing, find, join, same, slice,
    split, split_of, string_of, texts_of, trim_class, trim_end_of, trimmed, CharClass,
};
use crate::asset_match::words_of;
use crate::types::UserPath;
use vstd::prelude::*;

verus! {

/// The name of the configuration file in the user's data directory.
pub open spec fn config_file_name() -> Seq<char> {
    "updater_conf.ini"@
}

/// Whether `pattern` stands in `s` at index `at`.
pub open spec fn stands_at(s: Seq<char>, pattern: Seq<char>, at: int) -> bool {
    0 <= at && at + pattern.len() <= s.len() && s.subrange(at, at + pattern.len()) == pattern
}

/// `s` from index `at` on, with every occurrence of `pattern` replaced by
/// `with`, the occurrences being taken from left to right without overlap.
pub open spec fn replaced_from(s: Seq<char>, pattern: Seq<char>, with: Seq<char>, at: int) -> Seq<
    char,
>
    decreases s.len() - at,
{
    if at < 0 || at >= s.len() {
        Seq::empty()
    } else if pattern.len() > 0 && stands_at(s, pattern, at) {
        with + replaced_from(s, pattern, with, at + pattern.len())
    } else {
        seq![s[at]] + replaced_from(s, pattern, with, at + 1)
    }
}

/// `s` with every occurrence of `pattern` replaced by `with`.
pub open spec fn replaced(s: Seq<char>, pattern: Seq<char>, with: Seq<char>) -> Seq<char> {
    replaced_from(s, pattern, with, 0)
}

/// A path as the registry states it, brought into one form: white space
/// round it dropped, every pair of backslashes, then every backslash, made a
/// `/`, every pair of `/` then made one, and no `/` left at the end.
pub open spec fn normal_path(value: Seq<char>) -> Seq<char> {
    let slash = "/"@;
    trim_end_of(
        replaced(
            replaced(replaced(trimmed(value), "\\\\"@, slash), "\\"@, slash),
            "//"@,
            slash,
        ),
        CharClass::Is('/'),
    )
}

/// The path that the first of the lines at or after `from` which names the
/// key states: what stands behind the first `:` of that line, brought into
/// form. Empty where no line names the key.
pub open spec fn path_in_lines(lines: Seq<Seq<char>>, key: Seq<char>, from: int) -> Seq<char>
    decreases lines.len() - from,
{
    if from < 0 || from >= lines.len() {
        Seq::empty()
    } else if contains_text(lines[from], key) {
        normal_path(after_first(lines[from], ':'))
    } else {
        path_in_lines(lines, key, from + 1)
    }
}

/// The path that the output of a registry query states for a key.
pub open spec fn registry_path(output: Seq<char>, key: Seq<char>) -> Seq<char> {
    path_in_lines(split_of(output, '\n'), key, 0)
}

/// Replaces every occurrence of the pattern in the text.
fn replace(s: &Vec<char>, pattern: &Vec<char>, with: &Vec<char>) -> (out: Vec<char>)
    ensures
        out@ == replaced(s@, pattern@, with@),
{
    let mut out: Vec<char> = Vec::new();
    let mut i: usize = 0;
    while i < s.len()
        invariant
            i <= s.len(),
            replaced(s@, pattern@, with@) == out@ + replaced_from(s@, pattern@, with@, i as int),
        decreases s.len() - i,
    {
        let here: bool = if pattern.len() > 0 && pattern.len() <= s.len() - i {
            let window: Vec<char> = slice(s, i, i + pattern.len());
            same(&window, pattern)
        } else {
            false
        };
        let ghost before = out@;
        if here {
            out = join(&out, with);
            i = i + pattern.len();
            assert(out@ + replaced_from(s@, pattern@, with@, i as int) == before + (with@
                + replaced_from(s@, pattern@, with@, i as int)));
        } else {
            out.push(s[i]);
            i = i + 1;
            assert(out@ + replaced_from(s@, pattern@, with@, i as int) == before + (seq![
                s@[i - 1],
            ] + replaced_from(s@, pattern@, with@, i as int)));
        }
    }
    assert(out@ + Seq::<char>::empty() == out@);
    out
}

/// Brings a path as the registry states it into one form.
fn normalize(value: &Vec<char>) -> (path: Vec<char>)
    ensures
        path@ == normal_path(value@),
{
    let slash: Vec<char> = chars_of("/");
    let double_backslash: Vec<char> = chars_of("\\\\");
    let backslash: Vec<char> = chars_of("\\");
    let double_slash: Vec<char> = chars_of("//");
    let text: Vec<char> = trim_class(value, CharClass::Whitespace);
    let first: Vec<char> = replace(&text, &double_backslash, &slash);
    let second: Vec<char> = replace(&first, &backslash, &slash);
    let third: Vec<char> = replace(&second, &double_slash, &slash);
    let tail: usize = count_trailing(&third, CharClass::Is('/'));
    slice(&third, 0, third.len() - tail)
}

/// The path that the output of a registry query states for a key.
fn parse_path(output: &str, key: &str) -> (path: String)
    ensures
        path@ == registry_path(output@, key@),
{
    let all: Vec<char> = chars_of(output);
    let name: Vec<char> = chars_of(key);
    let lines: Vec<Vec<char>> = split(&all, '\n');
    let ghost views = split_of(output@, '\n');
    let mut i: usize = 0;
    while i < lines.len()
        invariant
            i <= lines.len(),
            texts_of(lines@) == views,
            views == split_of(output@, '\n'),
            name@ == key@,
            path_in_lines(views, key@, 0) == path_in_lines(views, key@, i as int),
        decreases lines.len() - i,
    {
        assert(texts_of(lines@)[i as int] == lines@[i as int]@);
        if contains(&lines[i], &name) {
            let colon: usize = find(&lines[i], ':');
            let value: Vec<char> = if colon < lines[i].len() {
                slice(&lines[i], colon + 1, lines[i].len())
            } else {
                Vec::new()
            };
            let path: Vec<char> = normalize(&value);
            return string_of(&path);
        }
        i = i + 1;
    }
    String::new()
}

/// The registry key under which the host application keeps the settings of
/// the user.
pub open spec fn user_key() -> Seq<char> {
    "'Registry::HKEY_CURRENT_USER\\Software\\Rime\\Weasel'"@
}

/// The registry key under which the host application keeps where it is
/// installed.
pub open spec fn program_key() -> Seq<char> {
    "'Registry::HKEY_LOCAL_MACHINE\\SOFTWARE\\WOW6432Node\\Rime\\Weasel'"@
}

/// The arguments with which the shell prints what stands under a registry key.
pub open spec fn registry_arguments_of(key: Seq<char>) -> Seq<Seq<char>> {
    seq!["-Command"@, "Get-ItemProperty"@, "-Path"@, key]
}

/// The arguments with which the shell prints what stands under a registry key.
fn registry_arguments(key: &str) -> (arguments: Vec<String>)
    ensures
        words_of(arguments@) == registry_arguments_of(key@),
{
    let arguments: Vec<String> = vec![
        String::from_str("-Command"),
        String::from_str("Get-ItemProperty"),
        String::from_str("-Path"),
        key.to_owned(),
    ];
    assert(words_of(arguments@) == registry_arguments_of(key@));
    arguments
}

/// The arguments of the registry query for the settings of the user, whose
/// output states the user's data directory.
pub fn user_path_query() -> (arguments: Vec<String>)
    ensures
        words_of(arguments@) == registry_arguments_of(user_key()),
{
    registry_arguments("'Registry::HKEY_CURRENT_USER\\Software\\Rime\\Weasel'")
}

/// The arguments of the registry query for the installation of the host
/// application, whose output states the directory of the host program.
pub fn exe_path_query() -> (arguments: Vec<String>)
    ensures
        words_of(arguments@) == registry_arguments_of(program_key()),
{
    registry_arguments("'Registry::HKEY_LOCAL_MACHINE\\SOFTWARE\\WOW6432Node\\Rime\\Weasel'")
}

/// Reads the user's data directory out of the output of the registry query
/// for the settings of the host application. Empty where the output does not
/// state it.
pub fn parse_user_path(output: String) -> (path: String)
    ensures
        path@ == registry_path(output@, "RimeUserDir"@),
{
    parse_path(output.as_str(), "RimeUserDir")
}

/// Reads the directory of the host program out of the output of the registry
/// query for its installation. Empty where the output does not state it.
pub fn parse_exe_path(output: String) -> (path: String)
    ensures
        path@ == registry_path(output@, "WeaselRoot"@),
{
    parse_path(output.as_str(), "WeaselRoot")
}

/// Tells where the files of the host application and of the updater are,
/// from the outputs of the two registry queries: the configuration file in
/// the user's data directory, the two tools in the directory of the host
/// program.
pub fn get_path(user_output: String, exe_output: String) -> (paths: UserPath)
    ensures
        paths.user@ == registry_path(user_output@, "RimeUserDir"@),
        paths.weasel@ == registry_path(exe_output@, "WeaselRoot"@),
        paths.config@ == paths.user@ + "/"@ + config_file_name(),
        paths.curl@ == paths.weasel@ + "/curl.exe"@,
        paths.zip@ == paths.weasel@ + "/7z.exe"@,
{
    let user: String = parse_user_path(user_output);
    let weasel: String = parse_exe_path(exe_output);
    let mut config: String = user.clone();
    config.append("/");
    config.append("updater_conf.ini");
    let mut curl: String = weasel.clone();
    curl.append("/curl.exe");
    let mut zip: String = weasel.clone();
    zip.append("/7z.exe");
    UserPath { user, weasel, config, curl, zip }
}

} // verus!
