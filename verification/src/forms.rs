//! The Forms API request bodies and endpoints: creating a form, and the
//! batch update that adds the name, email and per-product quantity
//! questions.  String values are embedded with JSON escaping.

use vstd::prelude::*;
use crate::numfmt::{dec_chars, u64_to_string};
use crate::strutil::push_char;
use crate::urlenc::{hex_digit, hex_digit_char};

verus! {

/// The escape of one character inside a JSON string literal.
pub open spec fn json_escaped_char(c: char) -> Seq<char> {
    if c == '"' {
        seq!['\\', '"']
    } else if c == '\\' {
        seq!['\\', '\\']
    } else if c == '\n' {
        seq!['\\', 'n']
    } else if c == '\r' {
        seq!['\\', 'r']
    } else if c == '\t' {
        seq!['\\', 't']
    } else if (c as nat) < 32 {
        seq!['\\', 'u', '0', '0', hex_digit((c as nat) / 16), hex_digit((c as nat) % 16)]
    } else {
        seq![c]
    }
}

/// The JSON escape of a whole character sequence.
pub open spec fn json_escaped(s: Seq<char>) -> Seq<char>
    decreases s.len(),
{
    if s.len() == 0 {
        Seq::empty()
    } else {
        json_escaped_char(s[0]) + json_escaped(s.skip(1))
    }
}

/// Escaping one more character appends its escape.
pub proof fn lemma_json_escaped_push(s: Seq<char>, c: char)
    ensures
        json_escaped(s.push(c)) == json_escaped(s) + json_escaped_char(c),
    decreases s.len(),
{
    assert(s.push(c)[0] == if s.len() == 0 {
        c
    } else {
        s[0]
    });
    if s.len() == 0 {
        assert(s.push(c).skip(1) =~= Seq::<char>::empty());
        assert(json_escaped(Seq::<char>::empty()) == Seq::<char>::empty());
        assert(json_escaped(s.push(c)) =~= json_escaped(s) + json_escaped_char(c));
    } else {
        assert(s.push(c).skip(1) =~= s.skip(1).push(c));
        lemma_json_escaped_push(s.skip(1), c);
        assert(json_escaped(s.push(c)) =~= json_escaped(s) + json_escaped_char(c));
    }
}

/// JSON-escapes `s`.
pub fn json_escape(s: &str) -> (r: String)
    ensures
        r@ == json_escaped(s@),
{
    let n = s.unicode_len();
    let mut r = String::new();
    let mut i: usize = 0;
    while i < n
        invariant
            n == s@.len(),
            0 <= i <= n,
            r@ == json_escaped(s@.take(i as int)),
        decreases n - i,
    {
        let c = s.get_char(i);
        if c == '"' {
            r.append("\\\"");
        } else if c == '\\' {
            r.append("\\\\");
        } else if c == '\n' {
            r.append("\\n");
        } else if c == '\r' {
            r.append("\\r");
        } else if c == '\t' {
            r.append("\\t");
        } else if (c as u32) < 32 {
            let b = c as u32;
            r.append("\\u00");
            push_char(&mut r, hex_digit_char(b / 16));
            push_char(&mut r, hex_digit_char(b % 16));
            proof {
                reveal_strlit("\\u00");
                assert(r@ =~= json_escaped(s@.take(i as int)) + json_escaped_char(c));
            }
        } else {
            push_char(&mut r, c);
        }
        proof {
            reveal_strlit("\\\"");
            reveal_strlit("\\\\");
            reveal_strlit("\\n");
            reveal_strlit("\\r");
            reveal_strlit("\\t");
            assert(r@ == json_escaped(s@.take(i as int)) + json_escaped_char(s@[i as int]));
            assert(s@.take(i + 1) =~= s@.take(i as int).push(s@[i as int]));
            lemma_json_escaped_push(s@.take(i as int), s@[i as int]);
        }
        i += 1;
    }
    proof {
        assert(s@.take(n as int) =~= s@);
    }
    r
}

/// A JSON string literal holding the escaped value.
pub open spec fn json_string_chars(s: Seq<char>) -> Seq<char> {
    "\""@ + json_escaped(s) + "\""@
}

/// Builds a JSON string literal holding the escaped value.
pub fn json_string(s: &str) -> (r: String)
    ensures
        r@ == json_string_chars(s@),
{
    let mut out = String::from_str("\"");
    out.append(json_escape(s).as_str());
    out.append("\"");
    proof {
        assert(out@ =~= json_string_chars(s@));
    }
    out
}

/// The Forms create endpoint.
pub fn forms_endpoint() -> (r: String)
    ensures
        r@ == "https://forms.googleapis.com/v1/forms"@,
{
    String::from_str("https://forms.googleapis.com/v1/forms")
}

/// The batch-update URL of a form.
pub open spec fn form_batch_update_url_chars(form_id: Seq<char>) -> Seq<char> {
    "https://forms.googleapis.com/v1/forms/"@ + form_id + ":batchUpdate"@
}

/// Builds the batch-update URL of a form.
pub fn form_batch_update_url(form_id: &str) -> (r: String)
    ensures
        r@ == form_batch_update_url_chars(form_id@),
{
    let mut s = String::from_str("https://forms.googleapis.com/v1/forms/");
    s.append(form_id);
    s.append(":batchUpdate");
    proof {
        assert(s@ =~= form_batch_update_url_chars(form_id@));
    }
    s
}

/// The responses URL of a form.
pub open spec fn form_responses_url_chars(form_id: Seq<char>) -> Seq<char> {
    "https://forms.googleapis.com/v1/forms/"@ + form_id + "/responses"@
}

/// Builds the responses URL of a form.
pub fn form_responses_url(form_id: &str) -> (r: String)
    ensures
        r@ == form_responses_url_chars(form_id@),
{
    let mut s = String::from_str("https://forms.googleapis.com/v1/forms/");
    s.append(form_id);
    s.append("/responses");
    proof {
        assert(s@ =~= form_responses_url_chars(form_id@));
    }
    s
}

/// The schema URL of a form.
pub open spec fn form_details_url_chars(form_id: Seq<char>) -> Seq<char> {
    "https://forms.googleapis.com/v1/forms/"@ + form_id
}

/// Builds the schema URL of a form.
pub fn form_details_url(form_id: &str) -> (r: String)
    ensures
        r@ == form_details_url_chars(form_id@),
{
    let mut s = String::from_str("https://forms.googleapis.com/v1/forms/");
    s.append(form_id);
    s
}

/// The body that creates a form with the given title.
pub open spec fn create_form_body_chars(title: Seq<char>) -> Seq<char> {
    "{\"info\":{\"title\":"@ + json_string_chars(title) + "}}"@
}

/// Builds the body that creates a form with the given title.
pub fn create_form_body(title: &str) -> (r: String)
    ensures
        r@ == create_form_body_chars(title@),
{
    let mut s = String::from_str("{\"info\":{\"title\":");
    s.append(json_string(title).as_str());
    s.append("}}");
    proof {
        assert(s@ =~= create_form_body_chars(title@));
    }
    s
}

/// The body that creates the tracking folder on Drive.
pub open spec fn create_folder_body_chars(name: Seq<char>) -> Seq<char> {
    "{\"name\":"@ + json_string_chars(name) + ",\"mimeType\":\"application/vnd.google-apps.folder\"}"@
}

/// Builds the body that creates the tracking folder on Drive.
pub fn create_folder_body(name: &str) -> (r: String)
    ensures
        r@ == create_folder_body_chars(name@),
{
    let mut s = String::from_str("{\"name\":");
    s.append(json_string(name).as_str());
    s.append(",\"mimeType\":\"application/vnd.google-apps.folder\"}");
    proof {
        assert(s@ =~= create_folder_body_chars(name@));
    }
    s
}

/// One createItem request: a text question with a title, an optional
/// description, a required flag and its position in the form.
pub open spec fn text_question_item_chars(
    title: Seq<char>,
    description: Option<Seq<char>>,
    required: bool,
    index: nat,
) -> Seq<char> {
    "{\"createItem\":{\"item\":{\"title\":"@ + json_string_chars(title) + (match description {
        Some(d) => ",\"description\":"@ + json_string_chars(d),
        None => Seq::<char>::empty(),
    }) + ",\"questionItem\":{\"question\":{\"required\":"@ + (if required {
        "true"@
    } else {
        "false"@
    }) + ",\"textQuestion\":{\"paragraph\":false}}}},\"location\":{\"index\":"@ + dec_chars(index)
        + "}}}"@
}

/// Builds one createItem request.
pub fn text_question_item(
    title: &str,
    description: Option<&str>,
    required: bool,
    index: u64,
) -> (r: String)
    ensures
        r@ == text_question_item_chars(
            title@,
            match description {
                Some(d) => Some(d@),
                None => None,
            },
            required,
            index as nat,
        ),
{
    let mut s = String::from_str("{\"createItem\":{\"item\":{\"title\":");
    s.append(json_string(title).as_str());
    match description {
        Some(d) => {
            s.append(",\"description\":");
            s.append(json_string(d).as_str());
        },
        None => {},
    }
    s.append(",\"questionItem\":{\"question\":{\"required\":");
    if required {
        s.append("true");
    } else {
        s.append("false");
    }
    s.append(",\"textQuestion\":{\"paragraph\":false}}}},\"location\":{\"index\":");
    s.append(u64_to_string(index).as_str());
    s.append("}}}");
    proof {
        assert(s@ =~= text_question_item_chars(
            title@,
            match description {
                Some(d) => Some(d@),
                None => None,
            },
            required,
            index as nat,
        ));
    }
    s
}

/// A product question to add to a form: the product's name and its
/// already-formatted price label.
pub struct QuestionSpec {
    pub name: String,
    pub price_label: String,
}

/// The fields of the product questions at the specification level.
pub open spec fn question_views(qs: Seq<QuestionSpec>) -> Seq<(Seq<char>, Seq<char>)> {
    qs.map_values(|q: QuestionSpec| (q.name@, q.price_label@))
}

/// The title of a product quantity question.
pub open spec fn product_title_chars(name: Seq<char>) -> Seq<char> {
    "Quantity: "@ + name
}

/// The description of a product quantity question.
pub open spec fn product_description_chars(price_label: Seq<char>) -> Seq<char> {
    "Price: $"@ + price_label
}

/// The createItem requests of the product questions, one per product,
/// each preceded by the separating comma, placed from `index` on.
pub open spec fn product_items_chars(qs: Seq<(Seq<char>, Seq<char>)>, index: nat) -> Seq<char>
    decreases qs.len(),
{
    if qs.len() == 0 {
        Seq::empty()
    } else {
        ","@ + text_question_item_chars(
            product_title_chars(qs[0].0),
            Some(product_description_chars(qs[0].1)),
            false,
            index,
        ) + product_items_chars(qs.skip(1), index + 1)
    }
}

/// Adding one more product appends its comma-led request at the next index.
pub proof fn lemma_product_items_push(qs: Seq<(Seq<char>, Seq<char>)>, x: (Seq<char>, Seq<char>), index: nat)
    ensures
        product_items_chars(qs.push(x), index) == product_items_chars(qs, index) + ","@
            + text_question_item_chars(
            product_title_chars(x.0),
            Some(product_description_chars(x.1)),
            false,
            (index + qs.len()) as nat,
        ),
    decreases qs.len(),
{
    assert(qs.push(x)[0] == if qs.len() == 0 {
        x
    } else {
        qs[0]
    });
    if qs.len() == 0 {
        assert(qs.push(x).skip(1) =~= Seq::<(Seq<char>, Seq<char>)>::empty());
        assert(product_items_chars(Seq::<(Seq<char>, Seq<char>)>::empty(), index + 1)
            == Seq::<char>::empty());
        assert(product_items_chars(qs.push(x), index) =~= product_items_chars(qs, index) + ","@
            + text_question_item_chars(
            product_title_chars(x.0),
            Some(product_description_chars(x.1)),
            false,
            index,
        ));
    } else {
        assert(qs.push(x).skip(1) =~= qs.skip(1).push(x));
        lemma_product_items_push(qs.skip(1), x, index + 1);
        assert(product_items_chars(qs.push(x), index) =~= product_items_chars(qs, index) + ","@
            + text_question_item_chars(
            product_title_chars(x.0),
            Some(product_description_chars(x.1)),
            false,
            (index + qs.len()) as nat,
        ));
    }
}

/// The whole batch-update body: the fixed name and email questions at the
/// first two positions, then one quantity question per product.
pub open spec fn batch_update_body_chars(qs: Seq<(Seq<char>, Seq<char>)>) -> Seq<char> {
    "{\"requests\":["@ + text_question_item_chars("Your Name"@, None, true, 0)
        + ","@ + text_question_item_chars("Your Email"@, None, true, 1)
        + product_items_chars(qs, 2) + "]}"@
}

/// Builds the batch-update body that adds the customer name, customer
/// email, and per-product quantity questions to a form.
pub fn batch_update_body(questions: &Vec<QuestionSpec>) -> (r: String)
    requires
        questions@.len() <= 0xFFFF_FFFF,
    ensures
        r@ == batch_update_body_chars(question_views(questions@)),
{
    let mut s = String::from_str("{\"requests\":[");
    s.append(text_question_item("Your Name", None, true, 0).as_str());
    s.append(",");
    s.append(text_question_item("Your Email", None, true, 1).as_str());
    let ghost prefix = s@;
    let mut i: usize = 0;
    while i < questions.len()
        invariant
            questions@.len() <= 0xFFFF_FFFF,
            0 <= i <= questions@.len(),
            prefix == "{\"requests\":["@ + text_question_item_chars("Your Name"@, None, true, 0)
                + ","@ + text_question_item_chars("Your Email"@, None, true, 1),
            s@ == prefix + product_items_chars(question_views(questions@).take(i as int), 2),
        decreases questions@.len() - i,
    {
        let q = &questions[i];
        s.append(",");
        s.append(
            text_question_item(
                product_title(q.name.as_str()).as_str(),
                Some(product_description(q.price_label.as_str()).as_str()),
                false,
                2 + (i as u64),
            ).as_str(),
        );
        proof {
            let views = question_views(questions@);
            assert(views.take(i + 1) =~= views.take(i as int).push(views[i as int]));
            lemma_product_items_push(views.take(i as int), views[i as int], 2);
            assert(s@ =~= prefix + product_items_chars(views.take(i + 1), 2));
        }
        i += 1;
    }
    s.append("]}");
    proof {
        assert(question_views(questions@).take(questions@.len() as int) =~= question_views(
            questions@,
        ));
        assert(s@ =~= batch_update_body_chars(question_views(questions@)));
    }
    s
}

/// Builds the title of a product quantity question.
pub fn product_title(name: &str) -> (r: String)
    ensures
        r@ == product_title_chars(name@),
{
    let mut s = String::from_str("Quantity: ");
    s.append(name);
    s
}

/// Builds the description of a product quantity question.
pub fn product_description(price_label: &str) -> (r: String)
    ensures
        r@ == product_description_chars(price_label@),
{
    let mut s = String::from_str("Price: $");
    s.append(price_label);
    s
}

} // verus!
