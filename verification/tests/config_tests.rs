use rime_wanxiang_updater::config_read::{
    config_is_complete, get_schema_display_name, init_config_with_selection, read_config,
    schema_key_choice, schema_type_choice, write_default_config,
};
use rime_wanxiang_updater::types::UpdateConfig;

#[test]
fn settings_come_from_their_sections() {
    let text = "[general]\nmirror = \"gh-proxy.com\"\n\n[repositories]\nschema_repo = \"me/scheme\"\ndict_repo = me/dict\n\n[files]\nschema_type = \"pro\"\nschema_key = \"moqi\"\nschema_name = \"rime-wanxiang-moqi.zip\"\ndict_name = \"9-moqi-dicts.zip\"\ndict_tag = \"nightly\"\nmodel_tag = \"v1\"\nmodel_file_name = \"m.gram\"\n\n[options]\ngithub_cookies = \"session=1; x=2\"\n";
    let config = read_config(text).unwrap();
    assert_eq!(config.mirror, "gh-proxy.com");
    assert_eq!(config.schema_repo, "me/scheme");
    assert_eq!(config.dict_repo, "me/dict");
    assert_eq!(config.model_repo, "amzxyz/RIME-LMDG");
    assert_eq!(config.self_repo, "Mikachu2333/rime_wanxiang_updater");
    assert_eq!(config.schema_type, "pro");
    assert_eq!(config.schema_key, "moqi");
    assert_eq!(config.schema_name, "rime-wanxiang-moqi.zip");
    assert_eq!(config.dict_name, "9-moqi-dicts.zip");
    assert_eq!(config.dict_tag, "nightly");
    assert_eq!(config.model_tag, "v1");
    assert_eq!(config.model_file_name, "m.gram");
    assert_eq!(config.github_cookies, Some("session=1; x=2".to_string()));
}

#[test]
fn silent_file_gives_the_defaults() {
    assert_eq!(read_config(""), Some(UpdateConfig::default()));
    assert_eq!(
        read_config("# nothing but a comment\n[other]\nkey = value\n"),
        Some(UpdateConfig::default())
    );
    assert_eq!(
        read_config("[options]\ngithub_cookies = \"\"\n"),
        Some(UpdateConfig::default())
    );
}

#[test]
fn setting_counts_only_in_its_own_section() {
    let config = read_config("mirror = a.example\n[files]\nmirror = b.example\n").unwrap();
    assert_eq!(config.mirror, "");
    let config = read_config("[general]\nmirror = a.example\n[general]\nmirror = b.example\n")
        .unwrap();
    assert_eq!(config.mirror, "a.example");
}

#[test]
fn incomplete_configuration_asks_for_the_selection() {
    assert_eq!(read_config("[files]\nschema_type = \"\"\n"), None);
    assert_eq!(read_config("[files]\nschema_name = \"\"\"\"\n"), None);
    assert_eq!(read_config("[files]\nschema_name =\n"), None);
    let mut config = UpdateConfig::default();
    assert!(config_is_complete(&config));
    config.schema_type = String::new();
    assert!(!config_is_complete(&config));
}

#[test]
fn text_that_is_no_configuration_file_asks_for_the_selection() {
    assert_eq!(read_config("[general\nmirror = x\n"), None);
}

#[test]
fn written_configuration_reads_back() {
    let mut config = UpdateConfig::default();
    config.mirror = "gh-proxy.com".to_string();
    config.github_cookies = Some("session=1".to_string());
    config.schema_type = "pro".to_string();
    config.schema_key = "zrm".to_string();
    let text = write_default_config(&config);
    assert_eq!(read_config(&text), Some(config));
    let text = write_default_config(&UpdateConfig::default());
    assert_eq!(read_config(&text), Some(UpdateConfig::default()));
}

#[test]
fn written_configuration_has_this_text() {
    let text = write_default_config(&UpdateConfig::default());
    assert_eq!(
        text,
        "[general]\nmirror = \"\"\n\n[repositories]\nschema_repo = \"amzxyz/rime_wanxiang\"\ndict_repo = \"amzxyz/rime_wanxiang\"\nmodel_repo = \"amzxyz/RIME-LMDG\"\nself_repo = \"Mikachu2333/rime_wanxiang_updater\"\n\n[files]\nschema_type = \"base\"\nschema_key = \"\"\nschema_name = \"rime-wanxiang-base.zip\"\ndict_name = \"9-base-dicts.zip\"\ndict_tag = \"dict-nightly\"\nmodel_tag = \"LTS\"\nmodel_file_name = \"wanxiang-lts-zh-hans.gram\"\n\n[options]\ngithub_cookies = \"\"\n"
    );
}

#[test]
fn selection_names_the_files_of_the_variant() {
    let config = init_config_with_selection("pro", "flypy");
    assert_eq!(config.schema_type, "pro");
    assert_eq!(config.schema_key, "flypy");
    assert_eq!(config.schema_name, "rime-wanxiang-flypy.zip");
    assert_eq!(config.dict_name, "9-flypy-dicts.zip");
    assert_eq!(config.dict_tag, "dict-nightly");
    let config = init_config_with_selection("base", "flypy");
    assert_eq!(config, UpdateConfig::default());
}

#[test]
fn answers_select_type_and_variant() {
    assert_eq!(schema_type_choice("1\n"), Some("base".to_string()));
    assert_eq!(schema_type_choice(" 2 \r\n"), Some("pro".to_string()));
    assert_eq!(schema_type_choice("3"), None);
    assert_eq!(schema_type_choice(""), None);
    assert_eq!(schema_type_choice("12"), None);
    let keys = ["moqi", "flypy", "zrm", "jdh", "tiger", "wubi", "hanxin"];
    for (i, key) in keys.iter().enumerate() {
        assert_eq!(
            schema_key_choice(&format!("{}\n", i + 1)),
            Some(key.to_string())
        );
    }
    assert_eq!(schema_key_choice("0"), None);
    assert_eq!(schema_key_choice("8"), None);
    assert_eq!(schema_key_choice("moqi"), None);
}

#[test]
fn variants_have_display_names() {
    assert_eq!(get_schema_display_name("moqi"), "\u{58a8}\u{5947}\u{7801}");
    assert_eq!(
        get_schema_display_name("flypy"),
        "\u{5c0f}\u{9e64}\u{53cc}\u{62fc}"
    );
    assert_eq!(get_schema_display_name("zrm"), "\u{81ea}\u{7136}\u{7801}");
    assert_eq!(get_schema_display_name("jdh"), "\u{7b80}\u{5355}\u{9e64}");
    assert_eq!(get_schema_display_name("tiger"), "\u{864e}\u{7801}");
    assert_eq!(get_schema_display_name("wubi"), "\u{4e94}\u{7b14}");
    assert_eq!(get_schema_display_name("hanxin"), "\u{6c49}\u{5fc3}\u{7801}");
    assert_eq!(
        get_schema_display_name("other"),
        "\u{672a}\u{77e5}\u{65b9}\u{6848}"
    );
    assert_eq!(
        get_schema_display_name("MOQI"),
        "\u{672a}\u{77e5}\u{65b9}\u{6848}"
    );
}
