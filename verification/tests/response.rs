use oai_pmh::error::Error;
use oai_pmh::response::ErrorCode;
use oai_pmh::response::GetRecordResponse;
use oai_pmh::response::IdentifyResponse;
use oai_pmh::response::ListRecordsResponse;

fn get_record_xml() -> String {
    let mut s = String::new();
    s.push_str("<?xml version=\"1.0\" encoding=\"UTF-8\"?>\n");
    s.push_str("<OAI-PMH xmlns=\"http://www.openarchives.org/OAI/2.0/\">\n");
    s.push_str("  <responseDate>2025-11-26T19:16:06Z</responseDate>\n");
    s.push_str("  <request verb=\"GetRecord\">https://test.archivesspace.org</request>\n");
    s.push_str("  <GetRecord>\n");
    s.push_str("    <record>\n");
    s.push_str("      <header>\n");
    s.push_str(
        "        <identifier>oai:archivesspace:/repositories/2/resources/2</identifier>\n",
    );
    s.push_str("        <datestamp>2025-11-11T14:28:08Z</datestamp>\n");
    s.push_str("      </header>\n");
    s.push_str("      <metadata>\n");
    s.push_str(
        "        <ead xmlns=\"urn:isbn:1-931666-22-9\"><archdesc>finding aid</archdesc></ead>\n",
    );
    s.push_str("      </metadata>\n");
    s.push_str("    </record>\n");
    s.push_str("  </GetRecord>\n");
    s.push_str("</OAI-PMH>\n");
    s
}

#[test]
fn get_record_success() {
    let xml = get_record_xml();
    let response = GetRecordResponse::new(&xml).unwrap();
    assert!(!response.is_err());
    assert_eq!(response.response_date, "2025-11-26T19:16:06Z");
    assert_eq!(response.request, "https://test.archivesspace.org");

    let payload = response.payload.unwrap();
    assert_eq!(
        payload.record.header.identifier,
        "oai:archivesspace:/repositories/2/resources/2"
    );
    assert_eq!(payload.record.header.datestamp, "2025-11-11T14:28:08Z");
    assert!(payload.record.header.status.is_none());

    let metadata = payload.record.metadata;
    assert!(metadata.contains("<ead"));
    assert!(metadata.contains("xmlns=\"urn:isbn:1-931666-22-9\""));
    assert!(metadata.contains("</ead>"));
}

#[test]
fn get_record_payload_is_verbatim_first_span() {
    // The record's opaque payload is exactly the text between the payload
    // tags, surrounding header fields parsed independently.
    let xml = get_record_xml();
    let response = GetRecordResponse::new(&xml).unwrap();
    let payload = response.payload.unwrap();
    let spans = oai_pmh::metadata::extract_metadata(&xml);
    assert_eq!(spans.len(), 1);
    assert_eq!(payload.record.metadata, spans[0]);
}

#[test]
fn err_cannot_disseminate_format() {
    let xml = "<?xml version=\"1.0\"?>\n<OAI-PMH>\n\
        <responseDate>2025-11-26T19:16:06Z</responseDate>\n\
        <request>https://test.archivesspace.org</request>\n\
        <error code=\"cannotDisseminateFormat\">The metadata format identified by the value given for the metadataPrefix argument is not supported by the item or by the repository.</error>\n\
        </OAI-PMH>";
    let response = GetRecordResponse::new(xml).unwrap();
    assert!(response.is_err());
    assert!(response.payload.is_none());

    let error = response.error.unwrap();
    assert_eq!(error.code, ErrorCode::CannotDisseminateFormat);
    assert_eq!(
        error.message,
        "The metadata format identified by the value given for the metadataPrefix argument is not supported by the item or by the repository."
    );
}

#[test]
fn err_id_does_not_exist() {
    let xml = "<?xml version=\"1.0\"?>\n<OAI-PMH>\n\
        <responseDate>2025-11-26T19:16:06Z</responseDate>\n\
        <request>https://test.archivesspace.org</request>\n\
        <error code=\"idDoesNotExist\">The value of the identifier argument is unknown or illegal in this repository.</error>\n\
        </OAI-PMH>";
    let response = GetRecordResponse::new(xml).unwrap();
    assert!(response.is_err());

    let error = response.error.unwrap();
    assert_eq!(error.code, ErrorCode::IdDoesNotExist);
    assert_eq!(
        error.message,
        "The value of the identifier argument is unknown or illegal in this repository."
    );
}

#[test]
fn unknown_error_code_is_malformed() {
    let xml = "<?xml version=\"1.0\"?><OAI-PMH>\
        <responseDate>t</responseDate><request>r</request>\
        <error code=\"somethingElse\">boom</error></OAI-PMH>";
    let err = GetRecordResponse::new(xml).unwrap_err();
    assert!(matches!(err, Error::MalformedEnvelope(_)));
}

#[test]
fn missing_response_date_is_malformed() {
    let xml = "<?xml version=\"1.0\"?><OAI-PMH>\
        <request>https://x</request></OAI-PMH>";
    let err = GetRecordResponse::new(xml).unwrap_err();
    assert!(matches!(err, Error::MalformedEnvelope(_)));
}

#[test]
fn missing_outer_element_is_malformed() {
    let xml = "<?xml version=\"1.0\"?><SOMETHING-ELSE>\
        <responseDate>t</responseDate><request>r</request></SOMETHING-ELSE>";
    let err = GetRecordResponse::new(xml).unwrap_err();
    assert!(matches!(err, Error::MalformedEnvelope(_)));
}

#[test]
fn missing_header_identifier_is_malformed() {
    let xml = "<?xml version=\"1.0\"?><OAI-PMH>\
        <responseDate>t</responseDate><request>r</request>\
        <GetRecord><record><header><datestamp>d</datestamp></header>\
        <metadata><x/></metadata></record></GetRecord></OAI-PMH>";
    let err = GetRecordResponse::new(xml).unwrap_err();
    assert!(matches!(err, Error::MalformedEnvelope(_)));
}

#[test]
fn identify_success() {
    let xml = "<?xml version=\"1.0\" encoding=\"UTF-8\"?>\n<OAI-PMH>\n\
        <responseDate>2025-11-26T21:49:54Z</responseDate>\n\
        <request verb=\"Identify\">https://test.archivesspace.org</request>\n\
        <Identify>\n\
          <repositoryName>ArchivesSpace OAI Provider</repositoryName>\n\
          <baseURL>https://test.archivesspace.org</baseURL>\n\
          <protocolVersion>2.0</protocolVersion>\n\
          <adminEmail>admin@example.com</adminEmail>\n\
          <earliestDatestamp>1970-01-01T00:00:00Z</earliestDatestamp>\n\
          <deletedRecord>persistent</deletedRecord>\n\
          <granularity>YYYY-MM-DDThh:mm:ssZ</granularity>\n\
        </Identify>\n</OAI-PMH>";
    let response = IdentifyResponse::new(xml).unwrap();
    assert!(!response.is_err());
    assert_eq!(response.response_date, "2025-11-26T21:49:54Z");
    assert_eq!(response.request, "https://test.archivesspace.org");

    let payload = response.payload.unwrap();
    assert_eq!(payload.repository_name, "ArchivesSpace OAI Provider");
    assert_eq!(payload.base_url, "https://test.archivesspace.org");
    assert_eq!(payload.protocol_version, "2.0");
    assert_eq!(payload.admin_email, vec!["admin@example.com"]);
    assert_eq!(payload.earliest_datestamp, "1970-01-01T00:00:00Z");
    assert_eq!(payload.deleted_record, "persistent");
    assert_eq!(payload.granularity, "YYYY-MM-DDThh:mm:ssZ");
    assert!(payload.compression.is_empty());
    assert!(payload.description.is_empty());
}

fn list_records_xml(token_attrs: &str, token_value: &str) -> String {
    let mut s = String::new();
    s.push_str("<?xml version=\"1.0\" encoding=\"UTF-8\"?>\n<OAI-PMH>\n");
    s.push_str("<responseDate>2025-11-27T02:10:07Z</responseDate>\n");
    s.push_str("<request verb=\"ListRecords\">https://test.archivesspace.org</request>\n");
    s.push_str("<ListRecords>\n");
    for (n, title) in [
        (1, "Correspondence about art, 1974\u{2013}2014"),
        (2, "Correspondence about Veterans Affairs appeals, 1945\u{2013}2012"),
        (3, "Correspondence relating to family, 1922\u{2013}1972, undated"),
    ] {
        s.push_str("<record><header>");
        s.push_str(&format!(
            "<identifier>oai:archivesspace:/repositories/2/archival_objects/{n}</identifier>"
        ));
        s.push_str("<datestamp>2025-11-11T00:31:42Z</datestamp>");
        s.push_str("<setSpec>speccol</setSpec>");
        s.push_str("</header><metadata>");
        s.push_str(&format!(
            "<oai_dc:dc xmlns:dc=\"http://purl.org/dc/elements/1.1/\"><dc:title>{title}</dc:title></oai_dc:dc>"
        ));
        s.push_str("</metadata></record>\n");
    }
    s.push_str(&format!(
        "<resumptionToken{token_attrs}>{token_value}</resumptionToken>\n"
    ));
    s.push_str("</ListRecords>\n</OAI-PMH>\n");
    s
}

#[test]
fn list_records_success_pairs_each_record_with_its_span() {
    let xml = list_records_xml(
        " completeListSize=\"100\" cursor=\"0\"",
        "eyJtZXRhZGF0YV9wcmVmaXgiOiJvYWlfZGMifQ==",
    );
    let response = ListRecordsResponse::new(&xml).unwrap();
    assert!(!response.is_err());
    assert_eq!(response.response_date, "2025-11-27T02:10:07Z");
    assert_eq!(response.request, "https://test.archivesspace.org");

    let payload = response.payload.unwrap();
    let token = payload.resumption_token.as_ref().unwrap();
    assert_eq!(token.token, "eyJtZXRhZGF0YV9wcmVmaXgiOiJvYWlfZGMifQ==");
    assert_eq!(token.complete_list_size, Some(100));
    assert_eq!(token.cursor, Some(0));
    assert!(token.expiration_date.is_none());

    assert_eq!(payload.record.len(), 3);
    let expected = [
        (
            "oai:archivesspace:/repositories/2/archival_objects/1",
            "Correspondence about art, 1974\u{2013}2014",
        ),
        (
            "oai:archivesspace:/repositories/2/archival_objects/2",
            "Correspondence about Veterans Affairs appeals, 1945\u{2013}2012",
        ),
        (
            "oai:archivesspace:/repositories/2/archival_objects/3",
            "Correspondence relating to family, 1922\u{2013}1972, undated",
        ),
    ];
    for (idx, (expected_id, expected_title)) in expected.iter().enumerate() {
        let record = &payload.record[idx];
        assert_eq!(record.header.identifier, *expected_id);
        assert_eq!(record.header.datestamp, "2025-11-11T00:31:42Z");
        assert_eq!(record.header.set_spec, vec!["speccol"]);
        assert!(record.metadata.contains("<oai_dc:dc"));
        assert!(record.metadata.contains(expected_title));
    }

    // Pairing invariant: with as many spans as entries, entry i carries
    // exactly the i-th span, verbatim.
    let spans = oai_pmh::metadata::extract_metadata(&xml);
    assert_eq!(spans.len(), payload.record.len());
    for (record, span) in payload.record.iter().zip(spans.iter()) {
        assert_eq!(&record.metadata, span);
    }
}

#[test]
fn list_records_token_metadata_unreadable_numbers_read_as_absent() {
    let xml = list_records_xml(" completeListSize=\"many\" cursor=\"\"", "tok");
    let payload = ListRecordsResponse::new(&xml).unwrap().payload.unwrap();
    let token = payload.resumption_token.unwrap();
    assert_eq!(token.token, "tok");
    assert_eq!(token.complete_list_size, None);
    assert_eq!(token.cursor, None);
}

#[test]
fn list_records_token_expiration_date_is_read() {
    let xml = list_records_xml(" expirationDate=\"2025-11-28T02:10:07Z\"", "tok");
    let payload = ListRecordsResponse::new(&xml).unwrap().payload.unwrap();
    let token = payload.resumption_token.unwrap();
    assert_eq!(token.expiration_date.as_deref(), Some("2025-11-28T02:10:07Z"));
}

#[test]
fn deleted_record_status_is_read_from_header_attribute() {
    let xml = "<?xml version=\"1.0\"?><OAI-PMH>\
        <responseDate>t</responseDate><request>r</request>\
        <GetRecord><record><header status=\"deleted\">\
        <identifier>id</identifier><datestamp>d</datestamp></header>\
        </record></GetRecord></OAI-PMH>";
    let response = GetRecordResponse::new(xml).unwrap();
    let payload = response.payload.unwrap();
    assert_eq!(payload.record.header.status.as_deref(), Some("deleted"));
    // No payload span at all: the record still decodes, with an empty
    // opaque payload.
    assert_eq!(payload.record.metadata, "");
}

#[test]
fn fewer_spans_than_entries_pads_with_empty_never_fails() {
    let xml = "<?xml version=\"1.0\"?><OAI-PMH>\
        <responseDate>t</responseDate><request>r</request>\
        <ListRecords>\
        <record><header><identifier>a</identifier><datestamp>d</datestamp></header>\
        <metadata><m>one</m></metadata></record>\
        <record><header><identifier>b</identifier><datestamp>d</datestamp></header>\
        </record>\
        </ListRecords></OAI-PMH>";
    let payload = ListRecordsResponse::new(xml).unwrap().payload.unwrap();
    assert_eq!(payload.record.len(), 2);
    assert_eq!(payload.record[0].metadata, "<m>one</m>");
    assert_eq!(payload.record[1].metadata, "");
}

#[test]
fn about_text_is_read() {
    let xml = "<?xml version=\"1.0\"?><OAI-PMH>\
        <responseDate>t</responseDate><request>r</request>\
        <GetRecord><record><header><identifier>id</identifier>\
        <datestamp>d</datestamp></header><metadata><m/></metadata>\
        <about><provenance>elsewhere</provenance></about></record></GetRecord></OAI-PMH>";
    let payload = GetRecordResponse::new(xml).unwrap().payload.unwrap();
    assert_eq!(payload.record.about, "<provenance>elsewhere</provenance>");
}

#[test]
fn error_and_no_payload_leaves_payload_absent() {
    let xml = "<?xml version=\"1.0\"?><OAI-PMH>\
        <responseDate>t</responseDate><request>r</request>\
        <error code=\"noRecordsMatch\">nothing matched the criteria</error>\
        </OAI-PMH>";
    let response = ListRecordsResponse::new(xml).unwrap();
    assert!(response.is_err());
    let error = response.error.as_ref().unwrap();
    assert_eq!(error.code, ErrorCode::NoRecordsMatch);
    assert!(response.payload.is_none());
}

#[test]
fn error_code_names_round_trip() {
    for (code, name) in [
        (ErrorCode::BadArgument, "badArgument"),
        (ErrorCode::BadResumptionToken, "badResumptionToken"),
        (ErrorCode::BadVerb, "badVerb"),
        (ErrorCode::CannotDisseminateFormat, "cannotDisseminateFormat"),
        (ErrorCode::IdDoesNotExist, "idDoesNotExist"),
        (ErrorCode::NoRecordsMatch, "noRecordsMatch"),
        (ErrorCode::NoMetadataFormats, "noMetadataFormats"),
        (ErrorCode::NoSetHierarchy, "noSetHierarchy"),
    ] {
        assert_eq!(code.code_str(), name);
    }
}
