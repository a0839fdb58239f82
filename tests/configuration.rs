use mimir2::configuration::{
    create_index_body, index_body_text, pipeline_body, IndexConfiguration, IndexMappings, IndexParameters,
    IndexSettings,
};
use mimir2::error::Error;

fn config(mappings: &str, settings: &str) -> IndexConfiguration {
    IndexConfiguration {
        name: String::from("book_fr_20210101"),
        parameters: IndexParameters { timeout: String::from("10s"), wait_for_active_shards: String::from("1") },
        settings: IndexSettings { value: String::from(settings) },
        mappings: IndexMappings { value: String::from(mappings) },
    }
}

#[test]
fn body_text() {
    assert_eq!(index_body_text("{}", "{\"a\": 1}"), "{ \"mappings\": {}, \"settings\": {\"a\": 1} }");
}

#[test]
fn body_of_configuration() {
    let body = create_index_body(&config("{\"properties\": {}}", "{\"number_of_shards\": 1}")).unwrap();
    assert_eq!(body["settings"]["number_of_shards"], 1);
    assert!(body["mappings"]["properties"].is_object());
}

#[test]
fn body_of_bad_configuration() {
    assert_eq!(
        create_index_body(&config("{", "{}")),
        Err(Error::Json2DeserializationError { details: String::from("could not deserialize index configuration") })
    );
}

#[test]
fn pipeline_bodies() {
    let body = pipeline_body("{\"processors\": []}", "p").unwrap();
    assert!(body["processors"].is_array());
    assert_eq!(
        pipeline_body("nope", "p"),
        Err(Error::Json2DeserializationError { details: String::from("Could not deserialize pipeline p") })
    );
}
