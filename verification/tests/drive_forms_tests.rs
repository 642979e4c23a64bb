use potracker_core::drive::{
    drive_file_url, drive_files_endpoint, finish_create_form, first_file_id, folder_search_query,
    form_edit_url, form_responder_url, forms_in_folder_query, parents_param, scanned_forms_of,
    tracking_folder_name,
};
use potracker_core::forms::{
    batch_update_body, create_folder_body, create_form_body, form_batch_update_url,
    form_details_url, form_responses_url, forms_endpoint, json_escape, text_question_item,
    QuestionSpec,
};
use potracker_core::model::{DriveFile, DriveFileList, GoogleFormInfo, GoogleFormResponse};

fn file(id: &str, name: &str) -> DriveFile {
    DriveFile {
        id: id.to_string(),
        name: name.to_string(),
        mime_type: "application/vnd.google-apps.form".to_string(),
        parents: None,
    }
}

#[test]
fn drive_queries_are_exact() {
    assert_eq!(
        folder_search_query("po-tracker"),
        "mimeType='application/vnd.google-apps.folder' and name='po-tracker' and trashed=false"
    );
    assert_eq!(
        forms_in_folder_query("folder42"),
        "'folder42' in parents and mimeType='application/vnd.google-apps.form' and trashed=false"
    );
    assert_eq!(tracking_folder_name(), "po-tracker");
}

#[test]
fn drive_urls_are_exact() {
    assert_eq!(drive_files_endpoint(), "https://www.googleapis.com/drive/v3/files");
    assert_eq!(drive_file_url("f1"), "https://www.googleapis.com/drive/v3/files/f1");
    assert_eq!(form_edit_url("f1"), "https://docs.google.com/forms/d/f1/edit");
    assert_eq!(form_responder_url("f1"), "https://docs.google.com/forms/d/f1/viewform");
}

#[test]
fn first_file_id_takes_the_first_match() {
    let list = DriveFileList { files: vec![file("a", "x"), file("b", "y")] };
    assert_eq!(first_file_id(&list).unwrap(), "a");
    let empty = DriveFileList { files: vec![] };
    assert!(first_file_id(&empty).is_none());
}

#[test]
fn parents_join_with_commas() {
    assert_eq!(parents_param(&None), "");
    assert_eq!(parents_param(&Some(vec![])), "");
    assert_eq!(parents_param(&Some(vec!["p1".to_string()])), "p1");
    assert_eq!(
        parents_param(&Some(vec!["p1".to_string(), "p2".to_string(), "p3".to_string()])),
        "p1,p2,p3"
    );
}

#[test]
fn scanned_forms_derive_their_links() {
    let forms = scanned_forms_of(&vec![file("f1", "Order form"), file("f2", "Survey")]);
    assert_eq!(forms.len(), 2);
    assert_eq!(forms[0].form_id, "f1");
    assert_eq!(forms[0].name, "Order form");
    assert_eq!(forms[0].url, "https://docs.google.com/forms/d/f1/edit");
    assert_eq!(forms[0].responder_url, "https://docs.google.com/forms/d/f1/viewform");
    assert_eq!(forms[1].form_id, "f2");
    assert_eq!(forms[1].url, "https://docs.google.com/forms/d/f2/edit");
}

fn created_form() -> GoogleFormResponse {
    GoogleFormResponse {
        form_id: "f9".to_string(),
        responder_uri: "https://docs.google.com/forms/d/f9/viewform".to_string(),
        info: GoogleFormInfo { title: "T".to_string(), document_title: None },
    }
}

#[test]
fn failed_folder_move_keeps_the_created_form() {
    let r = finish_create_form(created_form(), Err("Drive API error: 403".to_string()));
    assert_eq!(r.form.form_id, "f9");
    assert_eq!(r.form.responder_uri, "https://docs.google.com/forms/d/f9/viewform");
    assert_eq!(
        r.folder_warning.unwrap(),
        "Warning: Failed to organize form into folder: Drive API error: 403"
    );
}

#[test]
fn successful_folder_move_carries_no_warning() {
    let r = finish_create_form(created_form(), Ok(()));
    assert_eq!(r.form.form_id, "f9");
    assert!(r.folder_warning.is_none());
}

#[test]
fn json_escaping_is_exact() {
    assert_eq!(json_escape("plain"), "plain");
    assert_eq!(json_escape("a\"b"), "a\\\"b");
    assert_eq!(json_escape("a\\b"), "a\\\\b");
    assert_eq!(json_escape("line1\nline2\r\ttab"), "line1\\nline2\\r\\ttab");
    assert_eq!(json_escape("\u{1}"), "\\u0001");
    assert_eq!(json_escape("\u{1f}"), "\\u001F");
}

#[test]
fn form_urls_are_exact() {
    assert_eq!(forms_endpoint(), "https://forms.googleapis.com/v1/forms");
    assert_eq!(form_batch_update_url("f1"), "https://forms.googleapis.com/v1/forms/f1:batchUpdate");
    assert_eq!(form_responses_url("f1"), "https://forms.googleapis.com/v1/forms/f1/responses");
    assert_eq!(form_details_url("f1"), "https://forms.googleapis.com/v1/forms/f1");
}

#[test]
fn create_bodies_are_exact() {
    assert_eq!(create_form_body("My \"PO\" Form"), "{\"info\":{\"title\":\"My \\\"PO\\\" Form\"}}");
    assert_eq!(
        create_folder_body("po-tracker"),
        "{\"name\":\"po-tracker\",\"mimeType\":\"application/vnd.google-apps.folder\"}"
    );
}

#[test]
fn question_item_is_exact() {
    assert_eq!(
        text_question_item("Your Name", None, true, 0),
        "{\"createItem\":{\"item\":{\"title\":\"Your Name\",\"questionItem\":{\"question\":{\"required\":true,\"textQuestion\":{\"paragraph\":false}}}},\"location\":{\"index\":0}}}"
    );
    assert_eq!(
        text_question_item("Quantity: Widget", Some("Price: $9.99"), false, 2),
        "{\"createItem\":{\"item\":{\"title\":\"Quantity: Widget\",\"description\":\"Price: $9.99\",\"questionItem\":{\"question\":{\"required\":false,\"textQuestion\":{\"paragraph\":false}}}},\"location\":{\"index\":2}}}"
    );
}

#[test]
fn batch_update_body_lists_fixed_and_product_questions() {
    let questions = vec![
        QuestionSpec { name: "Widget".to_string(), price_label: "9.99".to_string() },
        QuestionSpec { name: "Gadget".to_string(), price_label: "0.50".to_string() },
    ];
    let body = batch_update_body(&questions);
    let mut expected = String::from("{\"requests\":[");
    expected.push_str("{\"createItem\":{\"item\":{\"title\":\"Your Name\",\"questionItem\":{\"question\":{\"required\":true,\"textQuestion\":{\"paragraph\":false}}}},\"location\":{\"index\":0}}}");
    expected.push_str(",");
    expected.push_str("{\"createItem\":{\"item\":{\"title\":\"Your Email\",\"questionItem\":{\"question\":{\"required\":true,\"textQuestion\":{\"paragraph\":false}}}},\"location\":{\"index\":1}}}");
    expected.push_str(",");
    expected.push_str("{\"createItem\":{\"item\":{\"title\":\"Quantity: Widget\",\"description\":\"Price: $9.99\",\"questionItem\":{\"question\":{\"required\":false,\"textQuestion\":{\"paragraph\":false}}}},\"location\":{\"index\":2}}}");
    expected.push_str(",");
    expected.push_str("{\"createItem\":{\"item\":{\"title\":\"Quantity: Gadget\",\"description\":\"Price: $0.50\",\"questionItem\":{\"question\":{\"required\":false,\"textQuestion\":{\"paragraph\":false}}}},\"location\":{\"index\":3}}}");
    expected.push_str("]}");
    assert_eq!(body, expected);
}

#[test]
fn batch_update_body_without_products() {
    let body = batch_update_body(&vec![]);
    assert!(body.starts_with("{\"requests\":[{\"createItem\""));
    assert!(body.ends_with("\"location\":{\"index\":1}}}]}"));
}
