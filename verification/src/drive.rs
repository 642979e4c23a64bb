//! The Drive side of the form workflow: search queries, file URLs, the
//! parent-list parameter of a move, the folder-or-create decision, the
//! conversion of a Drive listing into scanned forms, and the rule that a
//! failed folder move never undoes a successful form creation.

use vstd::prelude::*;
use crate::api::failure_chars;
use crate::model::{DriveFile, DriveFileList, GoogleFormResponse, ScannedForm};

verus! {

/// The Drive files endpoint.
pub fn drive_files_endpoint() -> (r: String)
    ensures
        r@ == "https://www.googleapis.com/drive/v3/files"@,
{
    String::from_str("https://www.googleapis.com/drive/v3/files")
}

/// The URL of one Drive file.
pub open spec fn drive_file_url_chars(file_id: Seq<char>) -> Seq<char> {
    "https://www.googleapis.com/drive/v3/files/"@ + file_id
}

/// Builds the URL of one Drive file.
pub fn drive_file_url(file_id: &str) -> (r: String)
    ensures
        r@ == drive_file_url_chars(file_id@),
{
    let mut s = String::from_str("https://www.googleapis.com/drive/v3/files/");
    s.append(file_id);
    s
}

/// The search query for an untrashed folder of the given name.
pub open spec fn folder_search_query_chars(name: Seq<char>) -> Seq<char> {
    "mimeType='application/vnd.google-apps.folder' and name='"@ + name + "' and trashed=false"@
}

/// Builds the search query for an untrashed folder of the given name.
pub fn folder_search_query(name: &str) -> (r: String)
    ensures
        r@ == folder_search_query_chars(name@),
{
    let mut s = String::from_str("mimeType='application/vnd.google-apps.folder' and name='");
    s.append(name);
    s.append("' and trashed=false");
    proof {
        assert(s@ =~= folder_search_query_chars(name@));
    }
    s
}

/// The search query for the untrashed forms inside a folder.
pub open spec fn forms_in_folder_query_chars(folder_id: Seq<char>) -> Seq<char> {
    "'"@ + folder_id + "' in parents and mimeType='application/vnd.google-apps.form' and trashed=false"@
}

/// Builds the search query for the untrashed forms inside a folder.
pub fn forms_in_folder_query(folder_id: &str) -> (r: String)
    ensures
        r@ == forms_in_folder_query_chars(folder_id@),
{
    let mut s = String::from_str("'");
    s.append(folder_id);
    s.append("' in parents and mimeType='application/vnd.google-apps.form' and trashed=false");
    proof {
        assert(s@ =~= forms_in_folder_query_chars(folder_id@));
    }
    s
}

/// The name of the folder that collects the application's forms.
pub fn tracking_folder_name() -> (r: String)
    ensures
        r@ == "po-tracker"@,
{
    String::from_str("po-tracker")
}

/// The id of the first file of a listing, as a folder search uses it.
pub fn first_file_id(list: &DriveFileList) -> (r: Option<String>)
    ensures
        match r {
            Some(id) => list.files@.len() > 0 && id@ == list.files@[0].id@,
            None => list.files@.len() == 0,
        },
{
    if list.files.len() == 0 {
        None
    } else {
        Some(list.files[0].id.clone())
    }
}

/// The comma-separated join of a list of strings.
pub open spec fn join_comma(parts: Seq<Seq<char>>) -> Seq<char>
    decreases parts.len(),
{
    if parts.len() == 0 {
        Seq::empty()
    } else if parts.len() == 1 {
        parts[0]
    } else {
        parts[0] + ","@ + join_comma(parts.skip(1))
    }
}

/// Joining one more part appends a comma and the part.
pub proof fn lemma_join_comma_push(parts: Seq<Seq<char>>, x: Seq<char>)
    ensures
        join_comma(parts.push(x)) == if parts.len() == 0 {
            x
        } else {
            join_comma(parts) + ","@ + x
        },
    decreases parts.len(),
{
    if parts.len() == 0 {
        assert(parts.push(x)[0] == x);
        assert(join_comma(parts.push(x)) == x);
    } else {
        assert(parts.push(x).skip(1) =~= parts.skip(1).push(x));
        lemma_join_comma_push(parts.skip(1), x);
        if parts.len() == 1 {
            assert(join_comma(parts.push(x)) =~= join_comma(parts) + ","@ + x);
        } else {
            assert(join_comma(parts.push(x)) =~= join_comma(parts) + ","@ + x);
        }
    }
}

/// The `removeParents` value for a move: the file's current parents joined
/// by commas, or empty when none are known.
pub fn parents_param(parents: &Option<Vec<String>>) -> (r: String)
    ensures
        match parents {
            Some(ps) => r@ == join_comma(ps.deep_view()),
            None => r@ == Seq::<char>::empty(),
        },
{
    match parents {
        None => String::new(),
        Some(ps) => {
            let mut s = String::new();
            let mut i: usize = 0;
            while i < ps.len()
                invariant
                    0 <= i <= ps@.len(),
                    s@ == join_comma(ps.deep_view().take(i as int)),
                decreases ps@.len() - i,
            {
                if i > 0 {
                    s.append(",");
                }
                s.append(ps[i].as_str());
                proof {
                    assert(ps.deep_view().take(i + 1) =~= ps.deep_view().take(i as int).push(
                        ps@[i as int]@,
                    ));
                    lemma_join_comma_push(ps.deep_view().take(i as int), ps@[i as int]@);
                }
                i += 1;
            }
            proof {
                assert(ps.deep_view().take(ps@.len() as int) =~= ps.deep_view());
            }
            s
        },
    }
}

/// The edit link of a form.
pub open spec fn form_edit_url_chars(form_id: Seq<char>) -> Seq<char> {
    "https://docs.google.com/forms/d/"@ + form_id + "/edit"@
}

/// Builds the edit link of a form.
pub fn form_edit_url(form_id: &str) -> (r: String)
    ensures
        r@ == form_edit_url_chars(form_id@),
{
    let mut s = String::from_str("https://docs.google.com/forms/d/");
    s.append(form_id);
    s.append("/edit");
    proof {
        assert(s@ =~= form_edit_url_chars(form_id@));
    }
    s
}

/// The responder link of a form.
pub open spec fn form_responder_url_chars(form_id: Seq<char>) -> Seq<char> {
    "https://docs.google.com/forms/d/"@ + form_id + "/viewform"@
}

/// Builds the responder link of a form.
pub fn form_responder_url(form_id: &str) -> (r: String)
    ensures
        r@ == form_responder_url_chars(form_id@),
{
    let mut s = String::from_str("https://docs.google.com/forms/d/");
    s.append(form_id);
    s.append("/viewform");
    proof {
        assert(s@ =~= form_responder_url_chars(form_id@));
    }
    s
}

/// Converts a Drive listing of forms into scanned-form records, deriving
/// each form's edit and responder links from its id.
pub fn scanned_forms_of(files: &Vec<DriveFile>) -> (r: Vec<ScannedForm>)
    ensures
        r@.len() == files@.len(),
        forall|i: int|
            0 <= i < files@.len() ==> {
                &&& (#[trigger] r@[i]).form_id@ == files@[i].id@
                &&& r@[i].name@ == files@[i].name@
                &&& r@[i].url@ == form_edit_url_chars(files@[i].id@)
                &&& r@[i].responder_url@ == form_responder_url_chars(files@[i].id@)
            },
{
    let mut forms: Vec<ScannedForm> = Vec::new();
    let mut i: usize = 0;
    while i < files.len()
        invariant
            0 <= i <= files@.len(),
            forms@.len() == i,
            forall|k: int|
                0 <= k < i ==> {
                    &&& (#[trigger] forms@[k]).form_id@ == files@[k].id@
                    &&& forms@[k].name@ == files@[k].name@
                    &&& forms@[k].url@ == form_edit_url_chars(files@[k].id@)
                    &&& forms@[k].responder_url@ == form_responder_url_chars(files@[k].id@)
                },
        decreases files@.len() - i,
    {
        let file = &files[i];
        forms.push(
            ScannedForm {
                form_id: file.id.clone(),
                name: file.name.clone(),
                url: form_edit_url(file.id.as_str()),
                responder_url: form_responder_url(file.id.as_str()),
            },
        );
        i += 1;
    }
    forms
}

/// A created form together with the outcome of the best-effort folder
/// move: the form itself, and a warning when the move failed.
pub struct CreatedForm {
    pub form: GoogleFormResponse,
    pub folder_warning: Option<String>,
}

/// Law, applied: a failed folder move never undoes a successful form
/// creation.  The created form is returned whatever the move's outcome;
/// a failure is carried only as a warning.
pub fn finish_create_form(form: GoogleFormResponse, move_result: Result<(), String>) -> (r:
    CreatedForm)
    ensures
        r.form == form,
        match move_result {
            Ok(()) => r.folder_warning is None,
            Err(e) => r.folder_warning matches Some(w) && w@ == failure_chars(
                "Warning: Failed to organize form into folder"@,
                e@,
            ),
        },
{
    match move_result {
        Ok(()) => CreatedForm { form, folder_warning: None },
        Err(e) => CreatedForm {
            form,
            folder_warning: Some(
                crate::api::failure_message(
                    "Warning: Failed to organize form into folder",
                    e.as_str(),
                ),
            ),
        },
    }
}

} // verus!
