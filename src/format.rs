//! Rendering of categories as a table, as tab-separated lines or as JSON, and
//! the selection of the categories under one parent.

use vstd::prelude::*;
use vstd::string::StringSliceAdditionalSpecFns;
use vstd::utf8::{
    decode_utf8, encode_utf8, encode_utf8_decode_utf8, encode_utf8_valid_utf8, is_char_boundary,
    valid_utf8,
};

use crate::models::{capped, Category};
use crate::text::{decimal, decimal_string, pad_right, push_padded_right};

verus! {

/// How results are rendered.
#[derive(Clone, Copy, Debug, PartialEq, Eq, Structural)]
pub enum OutputFormat {
    Table,
    Json,
    Compact,
}

impl Default for OutputFormat {
    fn default() -> (r: OutputFormat)
        ensures
            r == OutputFormat::Table,
    {
        OutputFormat::Table
    }
}

/// The largest character boundary of the UTF-8 text `bytes` at or below `i`.
pub open spec fn boundary_at_or_below(bytes: Seq<u8>, i: int) -> int
    decreases i,
{
    if i <= 0 {
        0
    } else if is_char_boundary(bytes, i) {
        i
    } else {
        boundary_at_or_below(bytes, i - 1)
    }
}

/// `s` when its UTF-8 encoding takes at most `max` bytes; otherwise its first
/// `max - 1` bytes (cut back to the last whole character) and an ellipsis.
#[verifier::opaque]
pub open spec fn truncate_spec(s: Seq<char>, max: nat) -> Seq<char> {
    let bytes = encode_utf8(s);
    if bytes.len() <= max {
        s
    } else {
        decode_utf8(bytes.take(boundary_at_or_below(bytes, max - 1))) + seq!['\u{2026}']
    }
}

/// Cuts `s` to fit in `max` bytes of UTF-8, keeping its first `max - 1` bytes
/// and an ellipsis when it was longer. Where byte `max - 1` falls inside a
/// character, the cut moves back to the start of that character. Only the
/// empty string fits in zero bytes.
pub fn truncate(s: &str, max: usize) -> (r: String)
    requires
        0 < max || s@.len() == 0,
    ensures
        r@ == truncate_spec(s@, max as nat),
{
    let n = s.as_bytes().len();
    if n <= max {
        proof {
            reveal(truncate_spec);
            assert(encode_utf8(s@).len() <= max);
        }
        String::from_str(s)
    } else {
        let ghost bytes = s.spec_bytes();
        proof {
            encode_utf8_valid_utf8(s@);
        }
        let mut cut: usize = max - 1;
        while cut > 0 && !s.is_char_boundary(cut)
            invariant
                bytes == s.spec_bytes(),
                valid_utf8(bytes),
                cut <= max - 1,
                boundary_at_or_below(bytes, (max - 1) as int) == boundary_at_or_below(
                    bytes,
                    cut as int,
                ),
            decreases cut,
        {
            cut = cut - 1;
        }
        assert(boundary_at_or_below(bytes, cut as int) == cut as int);
        let (head, _tail) = s.split_at(cut);
        proof {
            encode_utf8_decode_utf8(head@);
            assert(bytes.take(cut as int) =~= bytes.subrange(0, cut as int));
        }
        let mut r = String::from_str(head);
        proof {
            reveal_strlit("\u{2026}");
        }
        r.append("\u{2026}");
        proof {
            reveal(truncate_spec);
            assert(r@ =~= truncate_spec(s@, max as nat));
        }
        r
    }
}

/// Table heading of the category listing.
pub const CATEGORY_HEADER: &'static str = "ID       Parent   Name                                     Slug                          \n";

/// The rule under the heading.
pub const CATEGORY_RULE: &'static str = "-------- -------- ---------------------------------------- ------------------------------\n";

/// What the table says of an empty listing.
pub const NO_CATEGORIES: &'static str = "No categories found.";

/// The table shows at most this many categories.
pub const MAX_TABLE_ROWS: usize = 50;

/// Opens the line that counts the categories left out of the table.
pub const MORE_PREFIX: &'static str = "\n... and ";

/// Closes the line that counts the categories left out of the table.
pub const MORE_SUFFIX: &'static str = " more categories\n";

/// The parent column: the parent's identifier, or `-` for a top-level category.
pub open spec fn parent_cell(parent_id: Option<u64>) -> Seq<char> {
    match parent_id {
        Some(p) => decimal(p as nat),
        None => seq!['-'],
    }
}

/// One table row: identifier, parent, label cut to 38 characters, and slug,
/// left-aligned in columns of 8, 8, 40 and 30.
pub open spec fn category_row(c: Category) -> Seq<char> {
    pad_right(decimal(c.id as nat), ' ', 8) + seq![' '] + pad_right(parent_cell(c.parent_id), ' ', 8)
        + seq![' '] + pad_right(truncate_spec(c.label@, 38), ' ', 40) + seq![' '] + pad_right(
        c.slug@,
        ' ',
        30,
    ) + seq!['\n']
}

/// The rows of `cs`, in order.
pub open spec fn category_rows(cs: Seq<Category>) -> Seq<char>
    decreases cs.len(),
{
    if cs.len() == 0 {
        Seq::empty()
    } else {
        category_rows(cs.drop_last()) + category_row(cs.last())
    }
}

/// `a` comes before `b` by parent (top-level first, then by parent
/// identifier), then by identifier.
pub open spec fn key_lt(a: Category, b: Category) -> bool {
    match (a.parent_id, b.parent_id) {
        (None, Some(_)) => true,
        (Some(_), None) => false,
        (Some(x), Some(y)) => x < y || (x == y && a.id < b.id),
        (None, None) => a.id < b.id,
    }
}

/// `c` placed in `s` before the first element that it comes before.
pub open spec fn insert_sorted(s: Seq<Category>, c: Category) -> Seq<Category>
    decreases s.len(),
{
    if s.len() == 0 {
        seq![c]
    } else if key_lt(c, s[0]) {
        seq![c] + s
    } else {
        seq![s[0]] + insert_sorted(s.drop_first(), c)
    }
}

/// `cs` stably sorted by parent, then identifier.
pub open spec fn sorted_by_key(cs: Seq<Category>) -> Seq<Category>
    decreases cs.len(),
{
    if cs.len() == 0 {
        cs
    } else {
        insert_sorted(sorted_by_key(cs.drop_last()), cs.last())
    }
}

/// The table of categories: heading, rule, the first 50 rows sorted by parent
/// and identifier, and a count of those left out.
pub open spec fn categories_table_spec(cs: Seq<Category>) -> Seq<char> {
    if cs.len() == 0 {
        NO_CATEGORIES@
    } else {
        CATEGORY_HEADER@ + CATEGORY_RULE@ + category_rows(
            capped(sorted_by_key(cs), MAX_TABLE_ROWS as nat),
        ) + if cs.len() > MAX_TABLE_ROWS {
            MORE_PREFIX@ + decimal((cs.len() - MAX_TABLE_ROWS) as nat) + MORE_SUFFIX@
        } else {
            Seq::empty()
        }
    }
}

fn key_less(a: &Category, b: &Category) -> (r: bool)
    ensures
        r == key_lt(*a, *b),
{
    match (a.parent_id, b.parent_id) {
        (None, Some(_)) => true,
        (Some(_), None) => false,
        (Some(x), Some(y)) => x < y || (x == y && a.id < b.id),
        (None, None) => a.id < b.id,
    }
}

proof fn lemma_insert_sorted_at(s: Seq<Category>, c: Category, j: int)
    requires
        0 <= j <= s.len(),
        forall|i: int| 0 <= i < j ==> !key_lt(c, #[trigger] s[i]),
        j == s.len() || key_lt(c, s[j]),
    ensures
        insert_sorted(s, c) == s.insert(j, c),
    decreases j,
{
    if s.len() == 0 {
        assert(s.insert(j, c) =~= seq![c]);
    } else if j == 0 {
        assert(s.insert(j, c) =~= seq![c] + s);
    } else {
        assert(!key_lt(c, s[0]));
        let t = s.drop_first();
        assert forall|i: int| 0 <= i < j - 1 implies !key_lt(c, #[trigger] t[i]) by {
            assert(t[i] == s[i + 1]);
        }
        lemma_insert_sorted_at(t, c, j - 1);
        assert(s.insert(j, c) =~= seq![s[0]] + t.insert(j - 1, c));
    }
}

/// The categories at the positions `order`, in that order.
pub open spec fn pick(cs: Seq<Category>, order: Seq<usize>) -> Seq<Category> {
    Seq::new(order.len(), |i: int| cs[order[i] as int])
}

fn sorted_order(cs: &[Category]) -> (order: Vec<usize>)
    ensures
        forall|i: int| 0 <= i < order@.len() ==> order@[i] < cs@.len(),
        order@.len() == cs@.len(),
        pick(cs@, order@) == sorted_by_key(cs@),
{
    let mut order: Vec<usize> = Vec::new();
    let mut k: usize = 0;
    while k < cs.len()
        invariant
            k <= cs@.len(),
            order@.len() == k,
            forall|i: int| 0 <= i < order@.len() ==> order@[i] < cs@.len(),
            pick(cs@, order@) == sorted_by_key(cs@.take(k as int)),
        decreases cs@.len() - k,
    {
        let c = &cs[k];
        let mut j: usize = 0;
        let mut found = false;
        while !found && j < order.len()
            invariant
                j <= order@.len(),
                forall|i: int| 0 <= i < order@.len() ==> order@[i] < cs@.len(),
                forall|i: int| 0 <= i < j ==> !key_lt(*c, #[trigger] pick(cs@, order@)[i]),
                found ==> j < order@.len() && key_lt(*c, pick(cs@, order@)[j as int]),
            decreases order@.len() - j + if found { 0int } else { 1int },
        {
            if key_less(c, &cs[order[j]]) {
                found = true;
            } else {
                j = j + 1;
            }
        }
        let ghost before = pick(cs@, order@);
        proof {
            lemma_insert_sorted_at(before, *c, j as int);
            assert(cs@.take(k + 1).drop_last() =~= cs@.take(k as int));
        }
        order.insert(j, k);
        assert(pick(cs@, order@) =~= before.insert(j as int, *c));
        k = k + 1;
    }
    assert(cs@.take(cs@.len() as int) =~= cs@);
    order
}

fn parent_text(parent_id: Option<u64>) -> (r: String)
    ensures
        r@ == parent_cell(parent_id),
{
    match parent_id {
        Some(p) => decimal_string(p),
        None => {
            proof {
                reveal_strlit("-");
            }
            String::from_str("-")
        },
    }
}

fn push_category_row(out: &mut String, c: &Category)
    ensures
        final(out)@ == old(out)@ + category_row(*c),
{
    proof {
        reveal_strlit(" ");
        reveal_strlit("\n");
    }
    let id = decimal_string(c.id);
    push_padded_right(out, id.as_str(), " ", 8);
    out.append(" ");
    let parent = parent_text(c.parent_id);
    push_padded_right(out, parent.as_str(), " ", 8);
    out.append(" ");
    let label = truncate(c.label.as_str(), 38);
    push_padded_right(out, label.as_str(), " ", 40);
    out.append(" ");
    push_padded_right(out, c.slug.as_str(), " ", 30);
    out.append("\n");
    assert(final(out)@ =~= old(out)@ + category_row(*c));
}

/// Renders categories as a table sorted by parent, then identifier, showing
/// at most 50 rows.
pub fn format_categories_table(categories: &[Category]) -> (r: String)
    ensures
        r@ == categories_table_spec(categories@),
{
    if categories.len() == 0 {
        return String::from_str(NO_CATEGORIES);
    }
    let order = sorted_order(categories);
    let ghost sorted = pick(categories@, order@);
    let mut out = String::from_str(CATEGORY_HEADER);
    out.append(CATEGORY_RULE);
    let ghost head = out@;
    let n = categories.len();
    let limit = if n < MAX_TABLE_ROWS {
        n
    } else {
        MAX_TABLE_ROWS
    };
    let mut i: usize = 0;
    while i < limit
        invariant
            limit <= n == categories@.len() == order@.len() == sorted.len(),
            sorted == pick(categories@, order@),
            forall|k: int| 0 <= k < order@.len() ==> order@[k] < categories@.len(),
            i <= limit,
            out@ == head + category_rows(sorted.take(i as int)),
        decreases limit - i,
    {
        push_category_row(&mut out, &categories[order[i]]);
        assert(sorted.take(i + 1).drop_last() =~= sorted.take(i as int));
        i = i + 1;
    }
    assert(sorted.take(limit as int) =~= capped(sorted, MAX_TABLE_ROWS as nat));
    if n > MAX_TABLE_ROWS {
        out.append(MORE_PREFIX);
        let more = decimal_string((n - MAX_TABLE_ROWS) as u64);
        out.append(more.as_str());
        out.append(MORE_SUFFIX);
    }
    out
}

/// One compact line: identifier, parent (empty for a top-level category) and
/// label, separated by tabs.
pub open spec fn compact_line(c: Category) -> Seq<char> {
    decimal(c.id as nat) + seq!['\t'] + match c.parent_id {
        Some(p) => decimal(p as nat),
        None => Seq::empty(),
    } + seq!['\t'] + c.label@
}

/// The compact lines of `cs` joined by line breaks.
pub open spec fn compact_lines(cs: Seq<Category>) -> Seq<char>
    decreases cs.len(),
{
    if cs.len() == 0 {
        Seq::empty()
    } else if cs.len() == 1 {
        compact_line(cs[0])
    } else {
        compact_lines(cs.drop_last()) + seq!['\n'] + compact_line(cs.last())
    }
}

fn push_compact_line(out: &mut String, c: &Category)
    ensures
        final(out)@ == old(out)@ + compact_line(*c),
{
    proof {
        reveal_strlit("\t");
    }
    let id = decimal_string(c.id);
    out.append(id.as_str());
    out.append("\t");
    match c.parent_id {
        Some(p) => {
            let parent = decimal_string(p);
            out.append(parent.as_str());
        },
        None => {},
    }
    out.append("\t");
    out.append(c.label.as_str());
    assert(final(out)@ =~= old(out)@ + compact_line(*c));
}

/// Renders categories one per line as tab-separated fields, in their order.
pub fn format_categories_compact(categories: &[Category]) -> (r: String)
    ensures
        r@ == compact_lines(categories@),
{
    let mut out = String::new();
    let mut i: usize = 0;
    while i < categories.len()
        invariant
            i <= categories@.len(),
            out@ == compact_lines(categories@.take(i as int)),
        decreases categories@.len() - i,
    {
        if i > 0 {
            proof {
                reveal_strlit("\n");
            }
            out.append("\n");
        }
        push_compact_line(&mut out, &categories[i]);
        proof {
            let t = categories@.take(i + 1);
            assert(t.drop_last() =~= categories@.take(i as int));
            if i == 0 {
                assert(out@ =~= compact_line(t[0]));
            }
        }
        i = i + 1;
    }
    assert(categories@.take(categories@.len() as int) =~= categories@);
    out
}

/// A category as plain values.
pub struct CategoryView {
    pub id: u64,
    pub parent_id: Option<u64>,
    pub label: Seq<char>,
    pub slug: Seq<char>,
    pub has_child: bool,
    pub url: Seq<char>,
    pub image_url: Option<Seq<char>>,
}

impl View for Category {
    type V = CategoryView;

    open spec fn view(&self) -> CategoryView {
        CategoryView {
            id: self.id,
            parent_id: self.parent_id,
            label: self.label@,
            slug: self.slug@,
            has_child: self.has_child,
            url: self.url@,
            image_url: match self.image_url {
                Some(u) => Some(u@),
                None => None,
            },
        }
    }
}

/// The categories as plain values.
pub open spec fn category_views(cs: Seq<Category>) -> Seq<CategoryView> {
    cs.map_values(|c: Category| c@)
}

/// The pretty-printed JSON array of the given categories, as serde_json writes it.
pub uninterp spec fn categories_json(cs: Seq<CategoryView>) -> Seq<char>;

/// Relies on `serde_json::to_string_pretty`: the JSON text of an array of
/// objects, one per category, with the wire names of its fields.
#[verifier::external_body]
fn categories_to_json(categories: &[Category]) -> (r: String)
    ensures
        r@ == categories_json(category_views(categories@)),
{
    let items: Vec<serde_json::Value> = categories.iter().map(|c| {
        serde_json::Value::Object(serde_json::Map::from_iter([
            ("id", serde_json::Value::from(c.id)), ("parentId", c.parent_id.into()),
            ("label", c.label.as_str().into()), ("slug", c.slug.as_str().into()),
            ("hasChild", c.has_child.into()), ("url", c.url.as_str().into()),
            ("imageUrl", c.image_url.clone().into()),
        ].map(|(k, v)| (k.to_string(), v))))
    }).collect();
    serde_json::to_string_pretty(&items).unwrap_or_else(|_| "{}".to_string())
}

/// The rendering of `cs` in `format`.
pub open spec fn format_categories_spec(cs: Seq<Category>, format: OutputFormat) -> Seq<char> {
    match format {
        OutputFormat::Json => categories_json(category_views(cs)),
        OutputFormat::Compact => compact_lines(cs),
        OutputFormat::Table => categories_table_spec(cs),
    }
}

/// Renders categories in the chosen format.
pub fn format_categories(categories: &[Category], format: OutputFormat) -> (r: String)
    ensures
        r@ == format_categories_spec(categories@, format),
{
    match format {
        OutputFormat::Json => categories_to_json(categories),
        OutputFormat::Compact => format_categories_compact(categories),
        OutputFormat::Table => format_categories_table(categories),
    }
}

/// The categories whose parent is `parent`: the top-level ones for `None`.
pub open spec fn children_of(cs: Seq<Category>, parent: Option<u64>) -> Seq<Category> {
    cs.filter(|c: Category| c.parent_id == parent)
}

/// Keeps the categories under `parent` (the top-level ones for `None`), in order.
pub fn select_categories(categories: Vec<Category>, parent: Option<u64>) -> (r: Vec<Category>)
    ensures
        r@ == children_of(categories@, parent),
{
    let ghost all = categories@;
    let total = categories.len();
    let mut rest = categories;
    let mut kept: Vec<Category> = Vec::new();
    let mut i: usize = 0;
    while rest.len() > 0
        invariant
            all.len() == total,
            i + rest@.len() == all.len(),
            rest@ == all.skip(i as int),
            kept@ == children_of(all.take(i as int), parent),
        decreases rest@.len(),
    {
        let c = rest.remove(0);
        let same = match (c.parent_id, parent) {
            (Some(a), Some(b)) => a == b,
            (None, None) => true,
            _ => false,
        };
        proof {
            reveal(Seq::filter);
            assert(all.take(i + 1).drop_last() =~= all.take(i as int));
            assert(all.take(i + 1).last() == c);
        }
        if same {
            kept.push(c);
        }
        i = i + 1;
        assert(rest@ =~= all.skip(i as int));
    }
    assert(all.take(i as int) =~= all);
    kept
}

/// A category without a parent is among those listed as top-level, and every
/// category listed as top-level has no parent.
pub proof fn lemma_parentless_is_top_level(cs: Seq<Category>, c: Category)
    requires
        cs.contains(c),
        c.parent_id is None,
    ensures
        children_of(cs, None).contains(c),
        forall|d: Category| #[trigger] children_of(cs, None).contains(d) ==> d.parent_id is None,
{
    let pred = |d: Category| d.parent_id == None::<u64>;
    let i = choose|i: int| 0 <= i < cs.len() && cs[i] == c;
    cs.lemma_filter_contains(pred, i);
    assert forall|d: Category| #[trigger] children_of(cs, None).contains(d) implies d.parent_id is None by {
        let k = choose|k: int| 0 <= k < cs.filter(pred).len() && cs.filter(pred)[k] == d;
        cs.lemma_filter_pred(pred, k);
    }
}

/// The heading above a category listing.
pub open spec fn categories_heading_spec(parent: Option<u64>) -> Seq<char> {
    match parent {
        Some(p) => "Subcategories of "@ + decimal(p as nat) + ":\n\n"@,
        None => "Top-level categories:\n\n"@,
    }
}

/// Writes the heading above a category listing.
pub fn categories_heading(parent: Option<u64>) -> (r: String)
    ensures
        r@ == categories_heading_spec(parent),
{
    match parent {
        Some(p) => {
            let mut r = String::from_str("Subcategories of ");
            let id = decimal_string(p);
            r.append(id.as_str());
            r.append(":\n\n");
            r
        },
        None => String::from_str("Top-level categories:\n\n"),
    }
}

/// The category listing for `parent`: the heading, then the categories under
/// `parent` rendered in `format`.
pub fn categories_listing(all: Vec<Category>, parent: Option<u64>, format: OutputFormat) -> (r: String)
    ensures
        r@ == categories_heading_spec(parent) + format_categories_spec(
            children_of(all@, parent),
            format,
        ),
{
    let selected = select_categories(all, parent);
    let mut out = categories_heading(parent);
    let body = format_categories(selected.as_slice(), format);
    out.append(body.as_str());
    out
}

} // verus!
