use kafka_pump::files::FileError;
use kafka_pump::files::FileKind;

#[test]
fn json_extension_is_json() {
    assert_eq!(FileKind::from_path("config.json"), Ok(FileKind::JSON));
    assert_eq!(FileKind::from_path("dir/sub/config.json"), Ok(FileKind::JSON));
}

#[test]
fn yaml_extensions_are_yaml() {
    assert_eq!(FileKind::from_path("config.yml"), Ok(FileKind::YAML));
    assert_eq!(FileKind::from_path("config.yaml"), Ok(FileKind::YAML));
    assert_eq!(FileKind::from_path("rdkafka-config.yml"), Ok(FileKind::YAML));
}

#[test]
fn missing_extension_is_not_found() {
    assert!(matches!(FileKind::from_path("noext"), Err(FileError::NotFound)));
    assert!(matches!(FileKind::from_path(""), Err(FileError::NotFound)));
    assert!(matches!(FileKind::from_path(".gitignore"), Err(FileError::NotFound)));
    assert!(matches!(FileKind::from_path("dir.d/file"), Err(FileError::NotFound)));
}

#[test]
fn other_extensions_are_unsupported_and_named() {
    match FileKind::from_path("config.toml") {
        Err(FileError::UnsupportedExtension(ext)) => assert_eq!(ext, "toml"),
        other => panic!("expected an unsupported extension, got {:?}", other),
    }
    match FileKind::from_path("a/b.tar.gz") {
        Err(FileError::UnsupportedExtension(ext)) => assert_eq!(ext, "gz"),
        other => panic!("expected an unsupported extension, got {:?}", other),
    }
}

#[test]
fn error_messages_name_the_trouble() {
    assert_eq!(FileError::NotFound.message(), "No such file or directory");
    assert_eq!(
        FileError::UnsupportedExtension("toml".to_string()).message(),
        "unsupported file extension toml (allowed: yaml | yml | json)"
    );
    assert_eq!(
        FileError::InvalidYAMLSyntax("line 3".to_string()).message(),
        "Invalid YAML syntax: line 3"
    );
    assert_eq!(
        FileError::InvalidJSONSyntax("eof".to_string()).message(),
        "Invalid JSON syntax: eof"
    );
    assert_eq!(FileError::IO("disk gone".to_string()).message(), "disk gone");
}
