use radcontrol::error::{ErrorKind, O2Error, RegistryFault};
use radcontrol::registry::{
    list_projects, o2_list_projects, read_json_array, registry_log_line, registry_path,
    JsonReading, RegistryListing,
};

const TWO: &str = r#"[{"key":"tbis","name":"TBIS"},{"key":"dqotd","port":3000}]"#;
const PATH: &str = "/home/dev/dev/o2/registry/projects.json";

fn home() -> Result<String, String> {
    Ok("/home/dev".to_string())
}

#[test]
fn registry_path_under_home() {
    assert_eq!(registry_path("/home/dev"), PATH);
    assert_eq!(registry_path(""), "/dev/o2/registry/projects.json");
}

#[test]
fn log_line_counts_entries() {
    assert_eq!(registry_log_line(2, PATH), format!("[registry] loaded O2: 2 entries ({PATH})"));
    assert_eq!(registry_log_line(0, "p"), "[registry] loaded O2: 0 entries (p)");
    assert_eq!(registry_log_line(120, "p"), "[registry] loaded O2: 120 entries (p)");
}

#[test]
fn reading_an_array() {
    match read_json_array(TWO) {
        JsonReading::Array { entries, pretty } => {
            assert_eq!(entries, 2);
            let pretty = pretty.unwrap();
            assert_ne!(pretty, TWO);
            assert!(pretty.starts_with("[\n  {\n"));
            let again: serde_json::Value = serde_json::from_str(&pretty).unwrap();
            let first: serde_json::Value = serde_json::from_str(TWO).unwrap();
            assert_eq!(again, first);
        }
        other => panic!("not an array: {other:?}"),
    }
    assert_eq!(
        read_json_array("[]"),
        JsonReading::Array { entries: 0, pretty: Ok("[]".to_string()) }
    );
    assert_eq!(
        read_json_array(" [1, 2,3] "),
        JsonReading::Array { entries: 3, pretty: Ok("[\n  1,\n  2,\n  3\n]".to_string()) }
    );
}

#[test]
fn reading_a_document_that_is_not_an_array() {
    for text in ["{}", "null", "3", "\"[]\"", "true", "{\"a\":[1]}"] {
        assert_eq!(read_json_array(text), JsonReading::NotArray);
    }
}

#[test]
fn reading_a_text_that_is_not_json() {
    assert_eq!(
        read_json_array("[1,"),
        JsonReading::Invalid { detail: "EOF while parsing a value at line 1 column 3".to_string() }
    );
    assert_eq!(
        read_json_array(""),
        JsonReading::Invalid { detail: "EOF while parsing a value at line 1 column 0".to_string() }
    );
    assert_eq!(
        read_json_array("[] x"),
        JsonReading::Invalid { detail: "trailing characters at line 1 column 4".to_string() }
    );
}

#[test]
fn list_two_entries_in_order() {
    let listing = o2_list_projects(home(), true, Ok(TWO.to_string())).unwrap();
    let parsed: serde_json::Value = serde_json::from_str(&listing.json).unwrap();
    let entries = parsed.as_array().unwrap();
    assert_eq!(entries.len(), 2);
    assert_eq!(entries[0]["key"], "tbis");
    assert_eq!(entries[0]["name"], "TBIS");
    assert_eq!(entries[1]["key"], "dqotd");
    assert_eq!(entries[1]["port"], 3000);
    let source: serde_json::Value = serde_json::from_str(TWO).unwrap();
    assert_eq!(parsed, source);
    assert_eq!(listing.json, serde_json::to_string_pretty(&source).unwrap());
    assert_eq!(listing.log_line, format!("[registry] loaded O2: 2 entries ({PATH})"));
}

#[test]
fn listing_twice_gives_equal_bytes() {
    let first = o2_list_projects(home(), true, Ok(TWO.to_string())).unwrap();
    let second = o2_list_projects(home(), true, Ok(TWO.to_string())).unwrap();
    assert_eq!(first.json.as_bytes(), second.json.as_bytes());
    assert_eq!(first, second);
}

#[test]
fn listing_without_home() {
    let r = o2_list_projects(
        Err("environment variable not found".to_string()),
        true,
        Ok(TWO.to_string()),
    );
    let e = r.unwrap_err();
    assert_eq!(e.kind(), ErrorKind::MissingEnv);
    assert_eq!(e.message(), "HOME not set: environment variable not found");
}

#[test]
fn listing_without_file() {
    let e = o2_list_projects(home(), false, Ok(TWO.to_string())).unwrap_err();
    assert_eq!(e, O2Error::MissingFile { path: PATH.to_string() });
    assert_eq!(e.message(), format!("O2 registry missing: {PATH}"));
    assert_eq!(e.message().matches(PATH).count(), 1);
}

#[test]
fn listing_an_unreadable_file() {
    let e = o2_list_projects(home(), true, Err("stream did not contain valid UTF-8".to_string()))
        .unwrap_err();
    assert_eq!(e.kind(), ErrorKind::BadRegistry);
    assert_eq!(e.message(), format!("Failed to read {PATH}: stream did not contain valid UTF-8"));
}

#[test]
fn listing_invalid_json() {
    let e = o2_list_projects(home(), true, Ok("[{".to_string())).unwrap_err();
    assert_eq!(e.kind(), ErrorKind::BadRegistry);
    assert_eq!(
        e.message(),
        format!("Invalid JSON in {PATH}: EOF while parsing an object at line 1 column 2")
    );
}

#[test]
fn listing_a_root_that_is_not_an_array() {
    let e = o2_list_projects(home(), true, Ok("{\"projects\":[]}".to_string())).unwrap_err();
    assert_eq!(e, O2Error::BadRegistry { path: PATH.to_string(), fault: RegistryFault::NotArray });
    assert_eq!(e.message(), format!("Registry at {PATH} is not a JSON array"));
}

#[test]
fn list_projects_from_readings() {
    let reading = JsonReading::Array { entries: 1, pretty: Ok("[\n  1\n]".to_string()) };
    assert_eq!(
        list_projects(home(), true, Ok(reading)),
        Ok(RegistryListing {
            json: "[\n  1\n]".to_string(),
            log_line: format!("[registry] loaded O2: 1 entries ({PATH})"),
        })
    );
    let reading = JsonReading::Array { entries: 1, pretty: Err("no".to_string()) };
    assert_eq!(
        list_projects(home(), true, Ok(reading)).unwrap_err().message(),
        "Failed to serialize registry: no"
    );
    let reading = JsonReading::Invalid { detail: "expected value".to_string() };
    assert_eq!(
        list_projects(home(), true, Ok(reading)).unwrap_err().message(),
        format!("Invalid JSON in {PATH}: expected value")
    );
    assert_eq!(
        list_projects(home(), true, Ok(JsonReading::NotArray)).unwrap_err().kind(),
        ErrorKind::BadRegistry
    );
    assert_eq!(
        list_projects(home(), false, Ok(JsonReading::NotArray)).unwrap_err().kind(),
        ErrorKind::MissingFile
    );
    assert_eq!(
        list_projects(Err("x".to_string()), false, Err("y".to_string())).unwrap_err().kind(),
        ErrorKind::MissingEnv
    );
}
