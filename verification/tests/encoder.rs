use player_bridge::config::{startup_settings, SettingValue};
use player_bridge::encoder::{encode_arguments, quote_argument};
use player_bridge::messages::CommandInvocation;

fn invocation(name: &str, args: &[&str]) -> CommandInvocation {
    CommandInvocation {
        name: name.to_string(),
        args: args.iter().map(|a| a.to_string()).collect(),
    }
}

#[test]
fn quoting_wraps_in_double_quotes() {
    assert_eq!(quote_argument("x"), "\"x\"");
    assert_eq!(quote_argument(""), "\"\"");
    assert_eq!(quote_argument("http://example.com/a b"), "\"http://example.com/a b\"");
}

#[test]
fn every_arity_encodes_to_exactly_that_many_quoted_tokens() {
    let cases: [&[&str]; 5] = [
        &[],
        &["a"],
        &["a", "b"],
        &["a", "b", "c"],
        &["a", "b", "c", "d"],
    ];
    for args in cases {
        let encoded = encode_arguments(&invocation("loadfile", args));
        assert_eq!(encoded.len(), args.len());
        for (token, arg) in encoded.iter().zip(args.iter()) {
            assert_eq!(token, &format!("\"{arg}\""));
        }
    }
}

#[test]
fn encoded_seek_command_matches_expected_tokens() {
    let encoded = encode_arguments(&invocation("seek", &["12.5", "absolute"]));
    assert_eq!(encoded, vec!["\"12.5\"".to_string(), "\"absolute\"".to_string()]);
}

#[test]
fn startup_settings_attach_window_first() {
    let settings = startup_settings(42);
    assert_eq!(settings.len(), 9);
    assert_eq!(settings[0].name, "wid");
    assert_eq!(settings[0].value, SettingValue::Int(42));
    assert_eq!(settings[1].name, "title");
    assert_eq!(settings[1].value, SettingValue::Text("Stremio".to_string()));
    assert_eq!(settings[8].name, "aid");
    assert_eq!(settings[8].value, SettingValue::Text("1".to_string()));
}
