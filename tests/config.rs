use cai::{AliasMap, CaiError, CommandFile, CommandFileService, JsonCommandFile, YamlCommandFile};

fn expected_map() -> AliasMap {
    let mut result = AliasMap::new();
    result.insert("foo".to_string(), "ls".to_string());
    result.insert("bar".to_string(), "type".to_string());
    result
}

const JSON_TEXT: &str = "{\n  \"foo\": \"ls\",\n  \"bar\": \"type\"\n}\n";
const YAML_TEXT: &str = "foo: ls\nbar: type\n";

#[test]
fn parse_json_config_file_test() {
    let command_file_service =
        CommandFileService::new(None, Some("./example/cai_config.json".to_string()));
    assert_eq!(command_file_service.config_path(), "./example/cai_config.json");
    assert_eq!(
        command_file_service
            .parse_config_file(Some(JSON_TEXT.to_string()))
            .unwrap(),
        expected_map()
    )
}

#[test]
fn parse_yaml_config_file_test() {
    let command_file_service =
        CommandFileService::new(None, Some("./example/cai_config.yaml".to_string()));
    assert_eq!(command_file_service.config_path(), "./example/cai_config.yaml");
    assert_eq!(
        command_file_service
            .parse_config_file(Some(YAML_TEXT.to_string()))
            .unwrap(),
        expected_map()
    )
}

#[test]
fn json_and_yaml_texts_give_the_same_map() {
    let json = CommandFileService::new(Some("JSON".to_string()), None);
    let yaml = CommandFileService::new(Some("YAML".to_string()), None);
    let from_json = json.parse_config_file(Some(JSON_TEXT.to_string())).unwrap();
    let from_yaml = yaml.parse_config_file(Some(YAML_TEXT.to_string())).unwrap();
    assert_eq!(from_json, from_yaml);
    assert_eq!(from_json, expected_map());
}

#[test]
fn decoded_map_holds_the_templates() {
    let service = CommandFileService::new(None, None);
    let map = service
        .parse_config_file(Some("{\"up\": \"cd ..\", \"l\": \"ls -alt\"}".to_string()))
        .unwrap();
    assert_eq!(map.get(&"up".to_string()), Some(&"cd ..".to_string()));
    assert_eq!(map.get(&"l".to_string()), Some(&"ls -alt".to_string()));
    assert_eq!(map.get(&"foo".to_string()), None);
}

#[test]
fn empty_object_gives_empty_map() {
    let service = CommandFileService::new(None, None);
    assert_eq!(
        service.parse_config_file(Some("{\n\n}".to_string())).unwrap(),
        AliasMap::new()
    );
}

#[test]
fn missing_file_is_config_not_found() {
    for kind in [None, Some("JSON"), Some("YAML")] {
        let service = CommandFileService::new(kind.map(|k| k.to_string()), None);
        assert_eq!(service.parse_config_file(None), Err(CaiError::ConfigNotFound));
    }
}

#[test]
fn array_is_config_malformed() {
    let service = CommandFileService::new(None, None);
    assert_eq!(
        service.parse_config_file(Some("[\"ls\", \"type\"]".to_string())),
        Err(CaiError::ConfigMalformed)
    );
}

#[test]
fn nested_value_is_config_malformed() {
    let service = CommandFileService::new(Some("YAML".to_string()), None);
    assert_eq!(
        service.parse_config_file(Some("foo:\n  bar: ls\n".to_string())),
        Err(CaiError::ConfigMalformed)
    );
}

#[test]
fn syntax_error_is_config_malformed() {
    let service = CommandFileService::new(None, None);
    assert_eq!(
        service.parse_config_file(Some("{\"foo\": \"ls\"".to_string())),
        Err(CaiError::ConfigMalformed)
    );
}

#[test]
fn format_hint_selects_default_path() {
    assert_eq!(CommandFileService::new(None, None).config_path(), "./cai_config.json");
    assert_eq!(
        CommandFileService::new(Some("JSON".to_string()), None).config_path(),
        "./cai_config.json"
    );
    assert_eq!(
        CommandFileService::new(Some("YAML".to_string()), None).config_path(),
        "./cai_config.yaml"
    );
    assert_eq!(
        CommandFileService::new(Some("yaml".to_string()), None).config_path(),
        "./cai_config.json"
    );
    assert_eq!(
        CommandFileService::new(Some("TOML".to_string()), None).config_path(),
        "./cai_config.json"
    );
}

#[test]
fn path_hint_is_used_verbatim() {
    let service = CommandFileService::new(Some("YAML".to_string()), Some("conf/a b.yml".to_string()));
    assert_eq!(service.config_path(), "conf/a b.yml");
}

#[test]
fn command_files_report_their_paths() {
    assert_eq!(JsonCommandFile::new(None).path(), "./cai_config.json");
    assert_eq!(YamlCommandFile::new(None).path(), "./cai_config.yaml");
    assert_eq!(JsonCommandFile::new(Some("x.json")).path(), "x.json");
    assert_eq!(
        YamlCommandFile::new(None).parse(YAML_TEXT).unwrap(),
        expected_map()
    );
    assert_eq!(
        JsonCommandFile::new(None).parse("- a\n"),
        Err(CaiError::ConfigMalformed)
    );
}
