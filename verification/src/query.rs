//! The search query payload and its outbound JSON rendering.
//!
//! Every field is optional; an absent field is omitted from the rendered
//! object rather than sent as null. The category filter travels under the
//! wire name `type`, which cannot be a field name here.

use vstd::prelude::*;
use crate::text::{decimal_seq, json_string_text, push_decimal, push_json_string, push_char};

verus! {

/// The optional-field search criteria for the place-name search operation.
#[derive(Debug, Default)]
pub struct PlacenameQueryPayload {
    /// Upper bound on the number of results asked for.
    pub limit: Option<u32>,
    /// Name filter.
    pub name: Option<String>,
    /// Page number.
    pub page: Option<u32>,
    /// Category filter; wire name `type`.
    pub kind: Option<String>,
    /// Year filter.
    pub year: Option<u32>,
}

/// The rendered fields of the outbound object, in declaration order: one
/// `(wire name, rendered value)` pair for each present field, and nothing
/// for an absent one.
pub open spec fn query_fields(q: PlacenameQueryPayload) -> Seq<(Seq<char>, Seq<char>)> {
    let fs = Seq::<(Seq<char>, Seq<char>)>::empty();
    let fs = match q.limit {
        Some(v) => fs.push(("limit"@, decimal_seq(v as nat))),
        None => fs,
    };
    let fs = match q.name {
        Some(s) => fs.push(("name"@, json_string_text(s@))),
        None => fs,
    };
    let fs = match q.page {
        Some(v) => fs.push(("page"@, decimal_seq(v as nat))),
        None => fs,
    };
    let fs = match q.kind {
        Some(s) => fs.push(("type"@, json_string_text(s@))),
        None => fs,
    };
    match q.year {
        Some(v) => fs.push(("year"@, decimal_seq(v as nat))),
        None => fs,
    }
}

/// One field as it stands in the object: quoted name, colon, value.
pub open spec fn field_text(f: (Seq<char>, Seq<char>)) -> Seq<char> {
    seq!['"'] + f.0 + seq!['"', ':'] + f.1
}

/// The fields joined with commas.
pub open spec fn fields_text(fs: Seq<(Seq<char>, Seq<char>)>) -> Seq<char>
    decreases fs.len(),
{
    if fs.len() == 0 {
        Seq::empty()
    } else if fs.len() == 1 {
        field_text(fs[0])
    } else {
        fields_text(fs.drop_last()) + seq![','] + field_text(fs.last())
    }
}

/// The complete outbound JSON body for a query payload.
pub open spec fn query_body_text(q: PlacenameQueryPayload) -> Seq<char> {
    seq!['{'] + fields_text(query_fields(q)) + seq!['}']
}

/// The same fields written as a concatenation of one singleton per present
/// field: the shape the law below compares against.
pub open spec fn present_fields(q: PlacenameQueryPayload) -> Seq<(Seq<char>, Seq<char>)> {
    (match q.limit {
        Some(v) => seq![("limit"@, decimal_seq(v as nat))],
        None => Seq::<(Seq<char>, Seq<char>)>::empty(),
    }) + (match q.name {
        Some(s) => seq![("name"@, json_string_text(s@))],
        None => Seq::<(Seq<char>, Seq<char>)>::empty(),
    }) + (match q.page {
        Some(v) => seq![("page"@, decimal_seq(v as nat))],
        None => Seq::<(Seq<char>, Seq<char>)>::empty(),
    }) + (match q.kind {
        Some(s) => seq![("type"@, json_string_text(s@))],
        None => Seq::<(Seq<char>, Seq<char>)>::empty(),
    }) + (match q.year {
        Some(v) => seq![("year"@, decimal_seq(v as nat))],
        None => Seq::<(Seq<char>, Seq<char>)>::empty(),
    })
}

/// Law: the outbound object holds exactly the present fields, each under
/// its wire name — the category filter under `type` — and an absent field
/// leaves no key behind.
pub proof fn lemma_query_fields_exactly_present(q: PlacenameQueryPayload)
    ensures
        query_fields(q) == present_fields(q),
        q.kind matches Some(s) ==> query_fields(q).contains(("type"@, json_string_text(s@))),
        q.kind is None ==> forall|i: int|
            0 <= i < query_fields(q).len() ==> (#[trigger] query_fields(q)[i]).0 != "type"@,
{
    broadcast use vstd::string::group_string_axioms;

    reveal_strlit("limit");
    reveal_strlit("name");
    reveal_strlit("page");
    reveal_strlit("type");
    reveal_strlit("year");
    assert(query_fields(q) =~= present_fields(q));
    match q.kind {
        Some(s) => {
            let fs = query_fields(q);
            let i = (match q.limit {
                Some(_) => 1int,
                None => 0int,
            }) + (match q.name {
                Some(_) => 1int,
                None => 0int,
            }) + (match q.page {
                Some(_) => 1int,
                None => 0int,
            });
            assert(fs[i] == ("type"@, json_string_text(s@)));
            assert(fs.contains(("type"@, json_string_text(s@))));
        },
        None => {},
    }
    assert("limit"@.len() == 5 && "type"@.len() == 4);
    assert("name"@[0] == 'n' && "page"@[0] == 'p' && "year"@[0] == 'y' && "type"@[0] == 't');
    assert("limit"@ != "type"@);
    assert("name"@ != "type"@);
    assert("page"@ != "type"@);
    assert("year"@ != "type"@);
}

/// What stands between two fields: nothing before the first, a comma later.
pub open spec fn joiner(first: bool) -> Seq<char> {
    if first {
        Seq::empty()
    } else {
        seq![',']
    }
}

proof fn lemma_fields_step(
    fs: Seq<(Seq<char>, Seq<char>)>,
    f: (Seq<char>, Seq<char>),
    opening: Seq<char>,
)
    ensures
        opening + fields_text(fs.push(f)) == opening + fields_text(fs) + joiner(fs.len() == 0)
            + field_text(f),
{
    let whole = fs.push(f);
    assert(whole.drop_last() =~= fs);
    assert(whole.last() == f);
    if fs.len() == 0 {
        assert(fields_text(whole) == field_text(f));
        assert(opening + fields_text(whole) =~= opening + fields_text(fs) + joiner(true)
            + field_text(f));
    } else {
        assert(fields_text(whole) == fields_text(fs) + seq![','] + field_text(whole.last()));
        assert(opening + fields_text(whole) =~= opening + fields_text(fs) + joiner(false)
            + field_text(f));
    }
}

fn append_field_name(out: &mut String, first: bool, name: &str)
    ensures
        final(out)@ == old(out)@ + joiner(first) + seq!['"'] + name@ + seq!['"', ':'],
{
    if !first {
        push_char(out, ',');
    }
    push_char(out, '"');
    out.append(name);
    push_char(out, '"');
    push_char(out, ':');
    assert(final(out)@ =~= old(out)@ + joiner(first) + seq!['"'] + name@ + seq!['"', ':']);
}

fn append_u32_field(out: &mut String, first: bool, name: &str, v: u32)
    ensures
        final(out)@ == old(out)@ + joiner(first) + field_text((name@, decimal_seq(v as nat))),
{
    append_field_name(out, first, name);
    push_decimal(out, v);
    assert(final(out)@ =~= old(out)@ + joiner(first) + field_text(
        (name@, decimal_seq(v as nat)),
    ));
}

fn append_string_field(out: &mut String, first: bool, name: &str, s: &str)
    ensures
        final(out)@ == old(out)@ + joiner(first) + field_text((name@, json_string_text(s@))),
{
    append_field_name(out, first, name);
    push_json_string(out, s);
    assert(final(out)@ =~= old(out)@ + joiner(first) + field_text(
        (name@, json_string_text(s@)),
    ));
}

/// Renders the outbound JSON body for `q`: an object holding exactly the
/// present fields, in declaration order, the category filter under the wire
/// name `type`.
pub fn search_request_body(q: &PlacenameQueryPayload) -> (r: String)
    ensures
        r@ == query_body_text(*q),
{
    let mut out = String::new();
    push_char(&mut out, '{');
    let ghost opening = seq!['{'];
    let ghost mut fs = Seq::<(Seq<char>, Seq<char>)>::empty();
    let mut first: bool = true;
    assert(out@ =~= opening + fields_text(fs));

    if let Some(v) = &q.limit {
        let ghost f = ("limit"@, decimal_seq(*v as nat));
        proof {
            lemma_fields_step(fs, f, opening);
        }
        append_u32_field(&mut out, first, "limit", *v);
        proof {
            fs = fs.push(f);
        }
        first = false;
        assert(out@ == opening + fields_text(fs));
    }
    if let Some(s) = &q.name {
        let ghost f = ("name"@, json_string_text(s@));
        proof {
            lemma_fields_step(fs, f, opening);
        }
        append_string_field(&mut out, first, "name", s.as_str());
        proof {
            fs = fs.push(f);
        }
        first = false;
        assert(out@ == opening + fields_text(fs));
    }
    if let Some(v) = &q.page {
        let ghost f = ("page"@, decimal_seq(*v as nat));
        proof {
            lemma_fields_step(fs, f, opening);
        }
        append_u32_field(&mut out, first, "page", *v);
        proof {
            fs = fs.push(f);
        }
        first = false;
        assert(out@ == opening + fields_text(fs));
    }
    if let Some(s) = &q.kind {
        let ghost f = ("type"@, json_string_text(s@));
        proof {
            lemma_fields_step(fs, f, opening);
        }
        append_string_field(&mut out, first, "type", s.as_str());
        proof {
            fs = fs.push(f);
        }
        first = false;
        assert(out@ == opening + fields_text(fs));
    }
    if let Some(v) = &q.year {
        let ghost f = ("year"@, decimal_seq(*v as nat));
        proof {
            lemma_fields_step(fs, f, opening);
        }
        append_u32_field(&mut out, first, "year", *v);
        proof {
            fs = fs.push(f);
        }
        first = false;
        assert(out@ == opening + fields_text(fs));
    }
    push_char(&mut out, '}');
    proof {
        assert(fs =~= query_fields(*q));
        assert(out@ =~= query_body_text(*q));
    }
    out
}

} // verus!
