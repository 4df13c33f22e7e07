use rime_wanxiang_updater::path_get::{
    exe_path_query, get_path, parse_exe_path, parse_user_path, user_path_query,
};

#[test]
fn test_path_correct() {
    let user_output = "\r\nRimeUserDir  : C:\\Users\\me\\AppData\\Roaming\\Rime\r\nPSPath : x\r\n";
    let exe_output = "WeaselRoot : C:\\Program Files (x86)\\Rime\\weasel-0.16.3\r\n";
    let paths = get_path(user_output.to_string(), exe_output.to_string());
    println!("{:?}", paths);
    assert_eq!(paths.user, "C:/Users/me/AppData/Roaming/Rime");
    assert_eq!(paths.weasel, "C:/Program Files (x86)/Rime/weasel-0.16.3");
    assert_eq!(
        paths.config,
        "C:/Users/me/AppData/Roaming/Rime/updater_conf.ini"
    );
    assert_eq!(
        paths.curl,
        "C:/Program Files (x86)/Rime/weasel-0.16.3/curl.exe"
    );
    assert_eq!(
        paths.zip,
        "C:/Program Files (x86)/Rime/weasel-0.16.3/7z.exe"
    );
}

#[test]
fn registry_path_is_brought_into_one_form() {
    assert_eq!(
        parse_user_path("RimeUserDir : D:\\\\Rime\\\\user\\\\".to_string()),
        "D:/Rime/user"
    );
    assert_eq!(
        parse_user_path("RimeUserDir:a\\\\\\b".to_string()),
        "a/b"
    );
    assert_eq!(
        parse_user_path("RimeUserDir :   /home//me///rime//  ".to_string()),
        "/home/me//rime"
    );
    assert_eq!(
        parse_exe_path("x\nWeaselRoot : E:\\w\\\nWeaselRoot : F:\\other".to_string()),
        "E:/w"
    );
}

#[test]
fn registry_path_is_empty_where_it_is_not_stated() {
    assert_eq!(parse_user_path(String::new()), "");
    assert_eq!(parse_user_path("WeaselRoot : C:\\x".to_string()), "");
    assert_eq!(parse_exe_path("RimeUserDir : C:\\x".to_string()), "");
    assert_eq!(parse_user_path("RimeUserDir".to_string()), "");
    assert_eq!(parse_user_path("RimeUserDir : ".to_string()), "");
    let paths = get_path(String::new(), String::new());
    assert_eq!(paths.user, "");
    assert_eq!(paths.config, "/updater_conf.ini");
    assert_eq!(paths.curl, "/curl.exe");
    assert_eq!(paths.zip, "/7z.exe");
}

#[test]
fn registry_value_starts_behind_the_first_colon() {
    assert_eq!(
        parse_user_path("HKCU:RimeUserDir : C:\\x".to_string()),
        "RimeUserDir : C:/x"
    );
}

#[test]
fn registry_queries_name_the_keys_of_the_host() {
    assert_eq!(
        user_path_query(),
        vec![
            "-Command",
            "Get-ItemProperty",
            "-Path",
            "'Registry::HKEY_CURRENT_USER\\Software\\Rime\\Weasel'"
        ]
    );
    assert_eq!(
        exe_path_query(),
        vec![
            "-Command",
            "Get-ItemProperty",
            "-Path",
            "'Registry::HKEY_LOCAL_MACHINE\\SOFTWARE\\WOW6432Node\\Rime\\Weasel'"
        ]
    );
}
