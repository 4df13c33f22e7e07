use crate::text::{chars_of, same, string_of, trim_class, trim_of, trimmed, CharClass};
use crate::types::{default_config, UpdateConfig, UpdateConfigView};
use vstd::prelude::*;

verus! {

/// A parsed configuration file of the `ini` crate.
#[verifier::external_type_specification]
#[verifier::external_body]
pub struct ExIni(ini::Ini);

/// The error with which the `ini` crate refuses a text.
#[verifier::external_type_specification]
#[verifier::external_body]
pub struct ExParseError(ini::ParseError);

/// What a parsed configuration file holds: for a section name and a key, the
/// first value that the first section of that name gives to the key.
pub uninterp spec fn ini_entries(file: ini::Ini) -> Map<(Seq<char>, Seq<char>), Seq<char>>;

/// What `Ini::load_from_str` makes of a text: the entries of the file that it
/// parses the text into, or `None` where it refuses the text.
pub uninterp spec fn ini_parse(text: Seq<char>) -> Option<Map<(Seq<char>, Seq<char>), Seq<char>>>;

/// `Ini::load_from_str` parses a text with the default options. What comes
/// out depends on the text alone: a file with certain entries, or an error.
#[verifier::external_body]
fn load_ini(text: &str) -> (loaded: Result<ini::Ini, ini::ParseError>)
    ensures
        match loaded {
            Ok(file) => ini_parse(text@) == Some(ini_entries(file)),
            Err(_) => ini_parse(text@) is None,
        },
{
    ini::Ini::load_from_str(text)
}

/// `Ini::get_from` looks a key up in the first section of the given name, and
/// gives the first value of the key there, or `None` where the file has no
/// such section or the section has no such key.
#[verifier::external_body]
fn ini_value(file: &ini::Ini, section: &str, key: &str) -> (value: Option<String>)
    ensures
        match value {
            Some(text) => ini_entries(*file).contains_key((section@, key@)) && ini_entries(
                *file,
            )[(section@, key@)] == text@,
            None => !ini_entries(*file).contains_key((section@, key@)),
        },
{
    file.get_from(Some(section), key).map(|text| text.to_string())
}

/// A value without the double quotes round it, however many there are.
pub open spec fn unquoted(value: Seq<char>) -> Seq<char> {
    trim_of(value, CharClass::Is('"'))
}

/// What a file sets a key to, without the quotes, or `fallback` where the
/// file does not set it.
pub open spec fn setting(
    entries: Map<(Seq<char>, Seq<char>), Seq<char>>,
    section: Seq<char>,
    key: Seq<char>,
    fallback: Seq<char>,
) -> Seq<char> {
    if entries.contains_key((section, key)) {
        unquoted(entries[(section, key)])
    } else {
        fallback
    }
}

/// The configuration that the entries of a file give: each setting is what
/// the file sets it to, or its default where the file is silent. The mirror
/// stands in section `general`, the four repositories in `repositories`, the
/// names and tags of the files in `files`, and the credential in `options`,
/// where an empty one counts as none.
pub open spec fn config_of(entries: Map<(Seq<char>, Seq<char>), Seq<char>>) -> UpdateConfigView {
    let d = default_config();
    let cookies = setting(entries, "options"@, "github_cookies"@, Seq::empty());
    UpdateConfigView {
        schema_repo: setting(entries, "repositories"@, "schema_repo"@, d.schema_repo),
        dict_repo: setting(entries, "repositories"@, "dict_repo"@, d.dict_repo),
        model_repo: setting(entries, "repositories"@, "model_repo"@, d.model_repo),
        self_repo: setting(entries, "repositories"@, "self_repo"@, d.self_repo),
        mirror: setting(entries, "general"@, "mirror"@, d.mirror),
        schema_type: setting(entries, "files"@, "schema_type"@, d.schema_type),
        schema_key: setting(entries, "files"@, "schema_key"@, d.schema_key),
        schema_name: setting(entries, "files"@, "schema_name"@, d.schema_name),
        dict_name: setting(entries, "files"@, "dict_name"@, d.dict_name),
        dict_tag: setting(entries, "files"@, "dict_tag"@, d.dict_tag),
        model_tag: setting(entries, "files"@, "model_tag"@, d.model_tag),
        model_file_name: setting(entries, "files"@, "model_file_name"@, d.model_file_name),
        github_cookies: if cookies.len() > 0 {
            Some(cookies)
        } else {
            None
        },
    }
}

/// Whether a configuration says which scheme is wanted: neither the type of
/// the scheme nor the name of its file is empty.
pub open spec fn is_complete(config: UpdateConfigView) -> bool {
    config.schema_type.len() > 0 && config.schema_name.len() > 0
}

/// The configuration that a text gives, or `None` where the text cannot be
/// parsed or its configuration does not say which scheme is wanted.
pub open spec fn config_of_text(text: Seq<char>) -> Option<UpdateConfigView> {
    match ini_parse(text) {
        Some(entries) => if is_complete(config_of(entries)) {
            Some(config_of(entries))
        } else {
            None
        },
        None => None,
    }
}

/// The name of the scheme file for a variant of the scheme.
pub open spec fn schema_file_name(variant: Seq<char>) -> Seq<char> {
    "rime-wanxiang-"@ + variant + ".zip"@
}

/// The name of the dictionary file for a variant of the scheme.
pub open spec fn dict_file_name(variant: Seq<char>) -> Seq<char> {
    "9-"@ + variant + "-dicts.zip"@
}

/// The configuration for a selection: the default one, with the files of the
/// selected variant where the enhanced scheme `pro` was selected, and those
/// of the base scheme for any other type.
pub open spec fn selected_config(schema_type: Seq<char>, schema_key: Seq<char>)
    -> UpdateConfigView {
    let d = default_config();
    if schema_type == "pro"@ {
        UpdateConfigView {
            schema_type,
            schema_key,
            schema_name: schema_file_name(schema_key),
            dict_name: dict_file_name(schema_key),
            ..d
        }
    } else {
        UpdateConfigView { schema_type, ..d }
    }
}

/// The type of scheme that an answer selects: `1` the base scheme, `2` the
/// enhanced one; white space round the answer is ignored.
pub open spec fn schema_type_of(answer: Seq<char>) -> Option<Seq<char>> {
    if trimmed(answer) == "1"@ {
        Some("base"@)
    } else if trimmed(answer) == "2"@ {
        Some("pro"@)
    } else {
        None
    }
}

/// The variant of the enhanced scheme that an answer selects, `1` to `7`.
pub open spec fn schema_key_of(answer: Seq<char>) -> Option<Seq<char>> {
    let choice = trimmed(answer);
    if choice == "1"@ {
        Some("moqi"@)
    } else if choice == "2"@ {
        Some("flypy"@)
    } else if choice == "3"@ {
        Some("zrm"@)
    } else if choice == "4"@ {
        Some("jdh"@)
    } else if choice == "5"@ {
        Some("tiger"@)
    } else if choice == "6"@ {
        Some("wubi"@)
    } else if choice == "7"@ {
        Some("hanxin"@)
    } else {
        None
    }
}

/// The name under which a variant of the enhanced scheme is shown.
pub open spec fn display_name_of(key: Seq<char>) -> Seq<char> {
    if key == "moqi"@ {
        "\u{58a8}\u{5947}\u{7801}"@
    } else if key == "flypy"@ {
        "\u{5c0f}\u{9e64}\u{53cc}\u{62fc}"@
    } else if key == "zrm"@ {
        "\u{81ea}\u{7136}\u{7801}"@
    } else if key == "jdh"@ {
        "\u{7b80}\u{5355}\u{9e64}"@
    } else if key == "tiger"@ {
        "\u{864e}\u{7801}"@
    } else if key == "wubi"@ {
        "\u{4e94}\u{7b14}"@
    } else if key == "hanxin"@ {
        "\u{6c49}\u{5fc3}\u{7801}"@
    } else {
        "\u{672a}\u{77e5}\u{65b9}\u{6848}"@
    }
}

/// Whether a text is the given literal.
fn is_text(text: &Vec<char>, literal: &str) -> (equal: bool)
    ensures
        equal == (text@ == literal@),
{
    let other: Vec<char> = chars_of(literal);
    same(text, &other)
}

/// What the file sets a key to, without the quotes, or the fallback.
fn read_setting(file: &ini::Ini, section: &str, key: &str, fallback: String) -> (value: String)
    ensures
        value@ == setting(ini_entries(*file), section@, key@, fallback@),
{
    match ini_value(file, section, key) {
        Some(text) => {
            let all: Vec<char> = chars_of(text.as_str());
            let bare: Vec<char> = trim_class(&all, CharClass::Is('"'));
            string_of(&bare)
        },
        None => fallback,
    }
}

/// The configuration that a parsed file gives.
pub fn config_from_ini(file: &ini::Ini) -> (config: UpdateConfig)
    ensures
        config@ == config_of(ini_entries(*file)),
{
    let d: UpdateConfig = UpdateConfig::default();
    let cookies: String = read_setting(file, "options", "github_cookies", String::new());
    let github_cookies: Option<String> = if cookies.as_str().unicode_len() > 0 {
        Some(cookies)
    } else {
        None
    };
    UpdateConfig {
        schema_repo: read_setting(file, "repositories", "schema_repo", d.schema_repo),
        dict_repo: read_setting(file, "repositories", "dict_repo", d.dict_repo),
        model_repo: read_setting(file, "repositories", "model_repo", d.model_repo),
        self_repo: read_setting(file, "repositories", "self_repo", d.self_repo),
        mirror: read_setting(file, "general", "mirror", d.mirror),
        schema_type: read_setting(file, "files", "schema_type", d.schema_type),
        schema_key: read_setting(file, "files", "schema_key", d.schema_key),
        schema_name: read_setting(file, "files", "schema_name", d.schema_name),
        dict_name: read_setting(file, "files", "dict_name", d.dict_name),
        dict_tag: read_setting(file, "files", "dict_tag", d.dict_tag),
        model_tag: read_setting(file, "files", "model_tag", d.model_tag),
        model_file_name: read_setting(file, "files", "model_file_name", d.model_file_name),
        github_cookies,
    }
}

/// Whether a configuration says which scheme is wanted.
pub fn config_is_complete(config: &UpdateConfig) -> (complete: bool)
    ensures
        complete == is_complete(config@),
{
    config.schema_type.as_str().unicode_len() > 0 && config.schema_name.as_str().unicode_len()
        > 0
}

/// Reads the configuration out of the text of a configuration file. `None`
/// where the text cannot be parsed or does not say which scheme is wanted:
/// the selection has then to be asked for.
pub fn read_config(text: &str) -> (config: Option<UpdateConfig>)
    ensures
        match config {
            Some(c) => config_of_text(text@) == Some(c@),
            None => config_of_text(text@) is None,
        },
{
    match load_ini(text) {
        Ok(file) => {
            let config: UpdateConfig = config_from_ini(&file);
            if config_is_complete(&config) {
                Some(config)
            } else {
                None
            }
        },
        Err(_) => None,
    }
}

/// The type of scheme that an answer to the first question selects, or
/// `None` where the answer is none of the choices.
pub fn schema_type_choice(answer: &str) -> (choice: Option<String>)
    ensures
        match choice {
            Some(t) => schema_type_of(answer@) == Some(t@),
            None => schema_type_of(answer@) is None,
        },
{
    let all: Vec<char> = chars_of(answer);
    let text: Vec<char> = trim_class(&all, CharClass::Whitespace);
    if is_text(&text, "1") {
        Some(String::from_str("base"))
    } else if is_text(&text, "2") {
        Some(String::from_str("pro"))
    } else {
        None
    }
}

/// The variant that an answer to the second question selects, or `None`
/// where the answer is none of the choices.
pub fn schema_key_choice(answer: &str) -> (choice: Option<String>)
    ensures
        match choice {
            Some(k) => schema_key_of(answer@) == Some(k@),
            None => schema_key_of(answer@) is None,
        },
{
    let all: Vec<char> = chars_of(answer);
    let text: Vec<char> = trim_class(&all, CharClass::Whitespace);
    if is_text(&text, "1") {
        Some(String::from_str("moqi"))
    } else if is_text(&text, "2") {
        Some(String::from_str("flypy"))
    } else if is_text(&text, "3") {
        Some(String::from_str("zrm"))
    } else if is_text(&text, "4") {
        Some(String::from_str("jdh"))
    } else if is_text(&text, "5") {
        Some(String::from_str("tiger"))
    } else if is_text(&text, "6") {
        Some(String::from_str("wubi"))
    } else if is_text(&text, "7") {
        Some(String::from_str("hanxin"))
    } else {
        None
    }
}

/// The name under which a variant of the enhanced scheme is shown.
pub fn get_schema_display_name(key: &str) -> (name: &'static str)
    ensures
        name@ == display_name_of(key@),
{
    let text: Vec<char> = chars_of(key);
    if is_text(&text, "moqi") {
        "\u{58a8}\u{5947}\u{7801}"
    } else if is_text(&text, "flypy") {
        "\u{5c0f}\u{9e64}\u{53cc}\u{62fc}"
    } else if is_text(&text, "zrm") {
        "\u{81ea}\u{7136}\u{7801}"
    } else if is_text(&text, "jdh") {
        "\u{7b80}\u{5355}\u{9e64}"
    } else if is_text(&text, "tiger") {
        "\u{864e}\u{7801}"
    } else if is_text(&text, "wubi") {
        "\u{4e94}\u{7b14}"
    } else if is_text(&text, "hanxin") {
        "\u{6c49}\u{5fc3}\u{7801}"
    } else {
        "\u{672a}\u{77e5}\u{65b9}\u{6848}"
    }
}

/// The configuration for the scheme that was selected.
pub fn init_config_with_selection(schema_type: &str, schema_key: &str) -> (config: UpdateConfig)
    ensures
        config@ == selected_config(schema_type@, schema_key@),
{
    let d: UpdateConfig = UpdateConfig::default();
    let kind: Vec<char> = chars_of(schema_type);
    if is_text(&kind, "pro") {
        let mut schema_name: String = String::from_str("rime-wanxiang-");
        schema_name.append(schema_key);
        schema_name.append(".zip");
        let mut dict_name: String = String::from_str("9-");
        dict_name.append(schema_key);
        dict_name.append("-dicts.zip");
        UpdateConfig {
            schema_repo: d.schema_repo,
            dict_repo: d.dict_repo,
            model_repo: d.model_repo,
            self_repo: d.self_repo,
            mirror: d.mirror,
            schema_type: schema_type.to_owned(),
            schema_key: schema_key.to_owned(),
            schema_name,
            dict_name,
            dict_tag: d.dict_tag,
            model_tag: d.model_tag,
            model_file_name: d.model_file_name,
            github_cookies: d.github_cookies,
        }
    } else {
        UpdateConfig {
            schema_repo: d.schema_repo,
            dict_repo: d.dict_repo,
            model_repo: d.model_repo,
            self_repo: d.self_repo,
            mirror: d.mirror,
            schema_type: schema_type.to_owned(),
            schema_key: d.schema_key,
            schema_name: d.schema_name,
            dict_name: d.dict_name,
            dict_tag: d.dict_tag,
            model_tag: d.model_tag,
            model_file_name: d.model_file_name,
            github_cookies: d.github_cookies,
        }
    }
}

/// One line of a configuration file: a key, and its value in double quotes.
pub open spec fn entry_line(key: Seq<char>, value: Seq<char>) -> Seq<char> {
    key + " = \""@ + value + "\"\n"@
}

/// The text of the configuration file that holds a configuration: the four
/// sections with every setting, one on a line, and the credential left empty
/// where there is none.
pub open spec fn config_text_of(config: UpdateConfigView) -> Seq<char> {
    "[general]\n"@ + entry_line("mirror"@, config.mirror) + "\n[repositories]\n"@ + entry_line(
        "schema_repo"@,
        config.schema_repo,
    ) + entry_line("dict_repo"@, config.dict_repo) + entry_line("model_repo"@, config.model_repo)
        + entry_line("self_repo"@, config.self_repo) + "\n[files]\n"@ + entry_line(
        "schema_type"@,
        config.schema_type,
    ) + entry_line("schema_key"@, config.schema_key) + entry_line(
        "schema_name"@,
        config.schema_name,
    ) + entry_line("dict_name"@, config.dict_name) + entry_line("dict_tag"@, config.dict_tag)
        + entry_line("model_tag"@, config.model_tag) + entry_line(
        "model_file_name"@,
        config.model_file_name,
    ) + "\n[options]\n"@ + entry_line(
        "github_cookies"@,
        match config.github_cookies {
            Some(cookies) => cookies,
            None => Seq::empty(),
        },
    )
}

/// Adds one line to the text of a configuration file.
fn push_entry(text: &mut String, key: &str, value: &str)
    ensures
        final(text)@ == old(text)@ + entry_line(key@, value@),
{
    text.append(key);
    text.append(" = \"");
    text.append(value);
    text.append("\"\n");
    assert(final(text)@ == old(text)@ + entry_line(key@, value@));
}

/// The text of the configuration file that holds a configuration.
pub fn write_default_config(config: &UpdateConfig) -> (text: String)
    ensures
        text@ == config_text_of(config@),
{
    let mut text: String = String::from_str("[general]\n");
    push_entry(&mut text, "mirror", config.mirror.as_str());
    text.append("\n[repositories]\n");
    push_entry(&mut text, "schema_repo", config.schema_repo.as_str());
    push_entry(&mut text, "dict_repo", config.dict_repo.as_str());
    push_entry(&mut text, "model_repo", config.model_repo.as_str());
    push_entry(&mut text, "self_repo", config.self_repo.as_str());
    text.append("\n[files]\n");
    push_entry(&mut text, "schema_type", config.schema_type.as_str());
    push_entry(&mut text, "schema_key", config.schema_key.as_str());
    push_entry(&mut text, "schema_name", config.schema_name.as_str());
    push_entry(&mut text, "dict_name", config.dict_name.as_str());
    push_entry(&mut text, "dict_tag", config.dict_tag.as_str());
    push_entry(&mut text, "model_tag", config.model_tag.as_str());
    push_entry(&mut text, "model_file_name", config.model_file_name.as_str());
    text.append("\n[options]\n");
    match &config.github_cookies {
        Some(cookies) => {
            push_entry(&mut text, "github_cookies", cookies.as_str());
        },
        None => {
            push_entry(&mut text, "github_cookies", "");
            assert(""@ == Seq::<char>::empty()) by {
                reveal_strlit("");
            }
        },
    }
    text
}

} // verus!
