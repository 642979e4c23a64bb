//! The data shapes exchanged with the caller and the remote services:
//! SMTP credentials, OAuth client and token records, user info, and the
//! Forms and Drive resource records.  All are transient value holders with
//! no lifecycle of their own; the surrounding process converts them to and
//! from the wire encodings.

use vstd::prelude::*;
use std::collections::HashMap;

verus! {

/// Credentials and sender identity for the SMTP relay path.
pub struct SmtpSettings {
    pub smtp_server: String,
    pub smtp_port: i32,
    pub username: String,
    pub password: String,
    pub from_email: String,
    pub from_name: Option<String>,
}

/// The OAuth client pair.
pub struct GoogleAuthConfig {
    pub client_id: String,
    pub client_secret: String,
}

/// The token endpoint's response record.
pub struct GoogleTokenResponse {
    pub access_token: String,
    pub refresh_token: Option<String>,
    pub expires_in: i64,
    pub token_type: String,
    pub scope: Option<String>,
}

/// The userinfo endpoint's response record.
pub struct GoogleUserInfo {
    pub email: String,
    pub name: Option<String>,
    pub picture: Option<String>,
}

/// A created form: its id, the responder link, and its title info.
pub struct GoogleFormResponse {
    pub form_id: String,
    pub responder_uri: String,
    pub info: GoogleFormInfo,
}

/// A form's title block.
pub struct GoogleFormInfo {
    pub title: String,
    pub document_title: Option<String>,
}

/// The responses list of a form.
pub struct FormResponsesData {
    pub responses: Option<Vec<FormResponse>>,
}

/// One submitted response, keyed by question id.
pub struct FormResponse {
    pub response_id: String,
    pub create_time: String,
    pub answers: Option<HashMap<String, AnswerData>>,
}

/// One answer within a response.
pub struct AnswerData {
    pub question_id: String,
    pub text_answers: Option<TextAnswers>,
}

/// The text values of one answer.
pub struct TextAnswers {
    pub answers: Vec<TextAnswer>,
}

/// A single text value.
pub struct TextAnswer {
    pub value: String,
}

/// A form's schema: its id and items.
pub struct GoogleFormDetails {
    pub form_id: String,
    pub items: Option<Vec<FormItem>>,
}

/// One schema item.
pub struct FormItem {
    pub item_id: String,
    pub title: Option<String>,
    pub question_item: Option<QuestionItem>,
}

/// The question wrapper of a schema item.
pub struct QuestionItem {
    pub question: Question,
}

/// The question identifier of a schema item.
pub struct Question {
    pub question_id: String,
}

/// A Drive file record.
pub struct DriveFile {
    pub id: String,
    pub name: String,
    pub mime_type: String,
    pub parents: Option<Vec<String>>,
}

/// A Drive file listing.
pub struct DriveFileList {
    pub files: Vec<DriveFile>,
}

/// A form found in the tracking folder, with its edit and responder links.
pub struct ScannedForm {
    pub form_id: String,
    pub name: String,
    pub url: String,
    pub responder_url: String,
}

} // verus!
