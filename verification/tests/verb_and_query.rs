use oai_pmh::Verb;
use oai_pmh::error::Error;
use oai_pmh::query::GetRecordArgs;
use oai_pmh::query::ListRecordsArgs;
use oai_pmh::query::Query;
use oai_pmh::query::ResumableArgs;

#[test]
fn converts_verb_to_param() {
    let verb = Verb::GetRecord;
    assert_eq!("GetRecord", verb.as_param());
}

#[test]
fn every_verb_has_its_protocol_name() {
    assert_eq!(Verb::Identify.as_param(), "Identify");
    assert_eq!(Verb::ListIdentifiers.as_param(), "ListIdentifiers");
    assert_eq!(Verb::ListMetadataFormats.as_param(), "ListMetadataFormats");
    assert_eq!(Verb::ListRecords.as_param(), "ListRecords");
    assert_eq!(Verb::ListSets.as_param(), "ListSets");
}

#[test]
fn query_pairs_verb_with_args() {
    let args = GetRecordArgs::new("oai:archivesspace:/repositories/2/resources/2", "oai_ead");
    let query = Query::new(Verb::GetRecord, args);
    assert_eq!(query.verb, "GetRecord");
    assert_eq!(
        query.args.identifier,
        "oai:archivesspace:/repositories/2/resources/2"
    );
    assert_eq!(query.args.metadata_prefix, "oai_ead");
}

#[test]
fn list_records_args_builder() {
    let args = ListRecordsArgs::new("oai_ead")
        .from("2000-01-01")
        .until("2025-01-01")
        .set("speccol");
    assert_eq!(args.metadata_prefix, "oai_ead");
    assert_eq!(args.from.as_deref(), Some("2000-01-01"));
    assert_eq!(args.until.as_deref(), Some("2025-01-01"));
    assert_eq!(args.set.as_deref(), Some("speccol"));

    let bare = ListRecordsArgs::new("oai_dc");
    assert!(bare.from.is_none());
    assert!(bare.until.is_none());
    assert!(bare.set.is_none());
}

#[test]
fn resumable_args_carry_only_the_token() {
    let args = ResumableArgs::new("tok-123");
    assert_eq!(args.resumption_token, "tok-123");
}

#[test]
fn error_messages_name_their_condition() {
    assert_eq!(
        Error::Http("timed out".to_string()).describe(),
        "HTTP request failed: timed out"
    );
    assert_eq!(
        Error::MalformedEnvelope("missing echoed request".to_string()).describe(),
        "malformed envelope: missing echoed request"
    );
    assert_eq!(
        Error::UrlParse("relative URL without a base".to_string()).describe(),
        "URL parsing failed: relative URL without a base"
    );
    assert_eq!(
        Error::QuerySerialize("unsupported value".to_string()).describe(),
        "query serialization failed: unsupported value"
    );
    assert_eq!(
        Error::InvalidEndpoint("ftp://host/oai".to_string()).describe(),
        "invalid endpoint: ftp://host/oai"
    );
    assert_eq!(
        Error::NoResumptionToken.describe(),
        "no resumption token available"
    );
    assert_eq!(
        Error::UnexpectedResponse {
            content_type: Some("text/html".to_string()),
            body: "<html>".to_string(),
        }
        .describe(),
        "unexpected response (content-type: text/html): <html>"
    );
    assert_eq!(
        Error::UnexpectedResponse {
            content_type: None,
            body: "<html>".to_string(),
        }
        .describe(),
        "unexpected response: <html>"
    );
}
