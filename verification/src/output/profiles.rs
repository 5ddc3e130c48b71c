//! Profile views: the exhaustive detail view and the structural JSON form.
//! Profiles are fetched one at a time by wallet address, so there is no
//! summary table for them.

use vstd::prelude::*;
use vstd::string::*;
use crate::cells::{cell_opt_str, push_pair, render_opt_str};
use crate::json::{json_object, json_string, json_string_of, has_key, lemma_has_key_single,
    lemma_has_key_opt_str, opt_str_field, add_opt_str_field, render_json_object};
use crate::records::Profile;
use crate::table::{styled_table_of, detail_cells, render_detail_table};
use crate::text::placeholder_seq;

verus! {

/// The ordered label/value pairs of a profile's detail view.
pub open spec fn spec_profile_detail(p: Profile) -> Seq<(Seq<char>, Seq<char>)> {
    seq![
        ("Address"@, p.address@),
        ("Name"@, cell_opt_str(p.name)),
        ("Pseudonym"@, cell_opt_str(p.pseudonym)),
        ("Bio"@, cell_opt_str(p.bio)),
        ("Created At"@, cell_opt_str(p.created_at)),
    ]
}

/// Projects one profile onto its ordered detail pairs.
pub fn profile_detail(p: &Profile) -> (r: Vec<(String, String)>)
    ensures
        r.deep_view() == spec_profile_detail(*p),
{
    let mut rows: Vec<(String, String)> = Vec::new();
    push_pair(&mut rows, "Address".to_owned(), p.address.clone());
    push_pair(&mut rows, "Name".to_owned(), render_opt_str(&p.name));
    push_pair(&mut rows, "Pseudonym".to_owned(), render_opt_str(&p.pseudonym));
    push_pair(&mut rows, "Bio".to_owned(), render_opt_str(&p.bio));
    push_pair(&mut rows, "Created At".to_owned(), render_opt_str(&p.created_at));
    proof {
        assert(rows.deep_view() =~= spec_profile_detail(*p));
    }
    rows
}

/// Renders one profile's detail view as a two-column table.
pub fn profile_detail_table(p: &Profile) -> (r: String)
    ensures
        r@ == styled_table_of(detail_cells(spec_profile_detail(*p))),
{
    let pairs = profile_detail(p);
    render_detail_table(&pairs)
}

/// The object members of a profile's JSON form: the address always, then
/// each optional field exactly when the fetch returned it.
pub open spec fn profile_json_fields(p: Profile) -> Seq<(Seq<char>, Seq<char>)> {
    let f = seq![("address"@, json_string(p.address@))];
    let f = opt_str_field(f, "name"@, p.name);
    let f = opt_str_field(f, "pseudonym"@, p.pseudonym);
    let f = opt_str_field(f, "bio"@, p.bio);
    let f = opt_str_field(f, "created_at"@, p.created_at);
    f
}

/// A profile's JSON form: a structural passthrough of the fetched record.
pub open spec fn spec_profile_json(p: Profile) -> Seq<char> {
    json_object(profile_json_fields(p))
}

/// Serializes one profile as JSON, omitting absent fields.
#[verifier::rlimit(50)]
pub fn profile_json(p: &Profile) -> (r: String)
    ensures
        r@ == spec_profile_json(*p),
{
    let mut fields: Vec<(String, String)> = Vec::new();
    push_pair(&mut fields, "address".to_owned(), json_string_of(p.address.as_str()));
    add_opt_str_field(&mut fields, "name", &p.name);
    add_opt_str_field(&mut fields, "pseudonym", &p.pseudonym);
    add_opt_str_field(&mut fields, "bio", &p.bio);
    add_opt_str_field(&mut fields, "created_at", &p.created_at);
    proof {
        assert(fields.deep_view() == profile_json_fields(*p));
    }
    render_json_object(&fields)
}

/// The fixed, ordered label list of a profile's detail view.
pub open spec fn profile_detail_labels() -> Seq<Seq<char>> {
    seq!["Address"@, "Name"@, "Pseudonym"@, "Bio"@, "Created At"@]
}

/// Whatever fields are present, a profile's detail view emits exactly the
/// declared labels, in their fixed order, each exactly once.
pub proof fn lemma_profile_detail_labels(p: Profile)
    ensures
        spec_profile_detail(p).len() == profile_detail_labels().len(),
        forall|i: int| 0 <= i < profile_detail_labels().len()
            ==> #[trigger] spec_profile_detail(p)[i].0 == profile_detail_labels()[i],
        forall|i: int, j: int|
            #![trigger profile_detail_labels()[i], profile_detail_labels()[j]]
            0 <= i < j < profile_detail_labels().len() ==> profile_detail_labels()[i]
                != profile_detail_labels()[j],
{
    broadcast use vstd::string::group_string_axioms;

    reveal_strlit("Address");
    reveal_strlit("Name");
    reveal_strlit("Pseudonym");
    reveal_strlit("Bio");
    reveal_strlit("Created At");
    assert("Address"@.len() == 7);
    assert("Name"@.len() == 4);
    assert("Pseudonym"@.len() == 9);
    assert("Bio"@.len() == 3);
    assert("Created At"@.len() == 10);
}

/// With every optional field absent, the detail view is total: each affected
/// cell is the placeholder and the address keeps its own text.
pub proof fn lemma_profile_all_absent(p: Profile)
    requires
        p.name is None,
        p.pseudonym is None,
        p.bio is None,
        p.created_at is None,
    ensures
        spec_profile_detail(p)[0].1 == p.address@,
        forall|i: int| 1 <= i < 5 ==> #[trigger] spec_profile_detail(p)[i].1
            == placeholder_seq(),
{
    assert forall|i: int| 1 <= i < 5 implies #[trigger] spec_profile_detail(p)[i].1
        == placeholder_seq() by {
        assert(spec_profile_detail(p)[i].1 == placeholder_seq());
    }
}

/// JSON mode is a faithful passthrough of field presence: for every key, the
/// serialized object carries it exactly when it is the address key or the
/// key of an optional field that the fetched record carries.
pub proof fn lemma_profile_json_presence(p: Profile, k: Seq<char>)
    ensures
        has_key(profile_json_fields(p), k) <==> (k == "address"@ || (p.name is Some && k
            == "name"@) || (p.pseudonym is Some && k == "pseudonym"@) || (p.bio is Some && k
            == "bio"@) || (p.created_at is Some && k == "created_at"@)),
{
    broadcast use lemma_has_key_single, lemma_has_key_opt_str;

}

} // verus!
