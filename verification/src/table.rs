//! The generic table renderer.
//!
//! Rendering of already-finalized cell strings is delegated to the `tabled`
//! crate behind one trusted wrapper; its output text is named by
//! `styled_table_of`. The renderer itself guarantees the two things callers
//! rely on: an empty row list yields the caller's "no results" message and
//! never a bare header, and a non-empty one is rendered from exactly the
//! header row followed by the data rows in their given order.

use vstd::prelude::*;

verus! {

/// The text that the styled table renderer produces for the given rows
/// (header first), a function of the cell contents alone.
pub uninterp spec fn styled_table_of(rows: Seq<Seq<Seq<char>>>) -> Seq<char>;

/// Relies on tabled's `Builder`, `Style::rounded` and `Table`'s `Display`
/// impl: the rendered text is a function of the pushed records alone, one
/// record per row, the first acting as the header row.
#[verifier::external_body]
fn render_rows(rows: &Vec<Vec<String>>) -> (r: String)
    ensures
        r@ == styled_table_of(rows.deep_view()),
{
    let mut builder = tabled::builder::Builder::default();
    for row in rows.iter() {
        builder.push_record(row.iter().map(|c| c.as_str()));
    }
    let mut t = builder.build();
    t.with(tabled::settings::Style::rounded());
    t.to_string()
}

/// Renders a bordered table with one header row, or the given message when
/// there are no data rows.
pub fn render_table(header: &Vec<String>, rows: &Vec<Vec<String>>, empty_message: &str) -> (r:
    String)
    ensures
        rows@.len() == 0 ==> r@ == empty_message@,
        rows@.len() > 0 ==> r@ == styled_table_of(
            seq![header.deep_view()] + rows.deep_view(),
        ),
{
    if rows.len() == 0 {
        return empty_message.to_owned();
    }
    let mut all: Vec<Vec<String>> = Vec::new();
    let mut h: Vec<String> = Vec::new();
    let mut i: usize = 0;
    while i < header.len()
        invariant
            i <= header@.len(),
            h@.len() == i,
            forall|j: int| 0 <= j < i ==> h@[j]@ == header@[j]@,
        decreases header@.len() - i,
    {
        let cell = header[i].clone();
        h.push(cell);
        i += 1;
    }
    proof {
        assert(h.deep_view() =~= header.deep_view());
    }
    all.push(h);
    let mut k: usize = 0;
    while k < rows.len()
        invariant
            k <= rows@.len(),
            all@.len() == k + 1,
            all.deep_view()[0] == header.deep_view(),
            forall|j: int| 0 <= j < k ==> all.deep_view()[j + 1] == rows.deep_view()[j],
        decreases rows@.len() - k,
    {
        let mut row: Vec<String> = Vec::new();
        let mut c: usize = 0;
        while c < rows[k].len()
            invariant
                k < rows@.len(),
                c <= rows@[k as int]@.len(),
                row@.len() == c,
                forall|j: int| 0 <= j < c ==> row@[j]@ == rows@[k as int]@[j]@,
            decreases rows@[k as int]@.len() - c,
        {
            let cell = rows[k][c].clone();
            row.push(cell);
            c += 1;
        }
        proof {
            assert(row.deep_view() =~= rows.deep_view()[k as int]);
        }
        all.push(row);
        k += 1;
    }
    proof {
        assert(all.deep_view() =~= seq![header.deep_view()] + rows.deep_view());
    }
    render_rows(&all)
}

/// A two-column table from label/value pairs, labels under a fixed header.
pub open spec fn detail_cells(pairs: Seq<(Seq<char>, Seq<char>)>) -> Seq<Seq<Seq<char>>> {
    seq![seq!["Field"@, "Value"@]] + pairs.map(|i: int, p: (Seq<char>, Seq<char>)| seq![p.0, p.1])
}

/// Renders a detail view's label/value pairs as a two-column table.
pub fn render_detail_table(pairs: &Vec<(String, String)>) -> (r: String)
    requires
        pairs@.len() > 0,
    ensures
        r@ == styled_table_of(detail_cells(pairs.deep_view())),
{
    let mut header: Vec<String> = Vec::new();
    header.push("Field".to_owned());
    header.push("Value".to_owned());
    let mut rows: Vec<Vec<String>> = Vec::new();
    let mut i: usize = 0;
    while i < pairs.len()
        invariant
            i <= pairs@.len(),
            rows@.len() == i,
            forall|j: int| 0 <= j < i ==> rows.deep_view()[j] == seq![
                pairs.deep_view()[j].0,
                pairs.deep_view()[j].1,
            ],
        decreases pairs@.len() - i,
    {
        let mut row: Vec<String> = Vec::new();
        let label = pairs[i].0.clone();
        let value = pairs[i].1.clone();
        row.push(label);
        row.push(value);
        proof {
            assert(row.deep_view() =~= seq![pairs.deep_view()[i as int].0, pairs.deep_view()[
                i as int].1]);
        }
        let ghost prev = rows.deep_view();
        let ghost rowdv = row.deep_view();
        rows.push(row);
        proof {
            assert(rows.deep_view() =~= prev.push(rowdv));
        }
        i += 1;
    }
    proof {
        assert(header.deep_view() =~= seq!["Field"@, "Value"@]);
        assert(seq![header.deep_view()] + rows.deep_view() =~= detail_cells(pairs.deep_view()));
    }
    let out = render_table(&header, &rows, "");
    out
}

} // verus!
