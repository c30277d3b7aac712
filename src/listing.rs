use vstd::prelude::*;
use crate::format::{
    draw_headlines, extend, headlines_spec, lemma_line_terminator, lemma_plain_blank_concat,
    line_spec, newline, plain_blank, single, space,
};
use crate::lookup::{lower_of, lowercase, resolve_all, resolved_all, ListError};
use crate::model::{pieces, push_piece, push_str, ColumnWidths, DisplayOptions, Entry, Fragment, Kind, Piece, Row, Style};
use crate::sizer::{column_widths, group_width, size_width};

verus! {

/// `n` occurs in `h` starting at `i`.
pub open spec fn occurs_at(h: Seq<char>, n: Seq<char>, i: int) -> bool {
    0 <= i && i + n.len() <= h.len() && h.subrange(i, i + n.len()) == n
}

/// `n` occurs somewhere in `h`.
pub open spec fn contains_seq(h: Seq<char>, n: Seq<char>) -> bool {
    exists|i: int| occurs_at(h, n, i)
}

/// A name starting with `.` is hidden.
pub open spec fn is_hidden(name: Seq<char>) -> bool {
    name.len() > 0 && name[0] == '.'
}

pub open spec fn is_visible(r: Row, o: DisplayOptions) -> bool {
    o.show_hidden || !is_hidden(r.name@)
}

/// The name contains the filter, both taken in lower case.
pub open spec fn matches(r: Row, o: DisplayOptions) -> bool {
    contains_seq(lower_of(r.name@), lower_of(o.name_filter@))
}

/// The passes over the entries that a listing makes.
#[derive(Clone, Copy, Debug, PartialEq, Eq, Structural)]
pub enum Pass {
    /// Entries whose name matches the filter.
    Matching,
    /// Visible entries drawn at once: all of them when regrouping is off, else all but plain files.
    First,
    /// Visible plain files, drawn after the others when regrouping is on.
    Deferred,
}

pub open spec fn picked(r: Row, o: DisplayOptions, pass: Pass) -> bool {
    match pass {
        Pass::Matching => matches(r, o),
        Pass::First => is_visible(r, o) && (o.sort_disabled || r.kind != Kind::File),
        Pass::Deferred => is_visible(r, o) && !o.sort_disabled && r.kind == Kind::File,
    }
}

/// The rows a pass draws, in enumeration order.
pub open spec fn pick(rows: Seq<Row>, o: DisplayOptions, pass: Pass) -> Seq<Row> {
    rows.filter(|r: Row| picked(r, o, pass))
}

/// The order of a normal listing: the first pass, then the deferred files.
pub open spec fn order_spec(rows: Seq<Row>, o: DisplayOptions) -> Seq<Row> {
    pick(rows, o, Pass::First) + pick(rows, o, Pass::Deferred)
}

/// The lines of `rows`, one after the other.
pub open spec fn lines(rows: Seq<Row>, w: ColumnWidths, o: DisplayOptions) -> Seq<Piece>
    decreases rows.len(),
{
    if rows.len() == 0 {
        Seq::empty()
    } else {
        lines(rows.drop_last(), w, o) + line_spec(rows.last(), w, o)
    }
}

/// The message for a filter that nothing matched.
pub open spec fn not_found_spec(filter: Seq<char>) -> Seq<Piece> {
    seq![(filter + " could not be found"@, Style::Missing), (newline(), Style::Plain)]
}

/// What follows the header row: with a filter, the matching entries or the
/// not-found message; without one, the normal listing order.
pub open spec fn body_spec(rows: Seq<Row>, w: ColumnWidths, o: DisplayOptions) -> Seq<Piece> {
    if o.name_filter@.len() > 0 {
        let m = pick(rows, o, Pass::Matching);
        if m.len() == 0 {
            not_found_spec(o.name_filter@)
        } else {
            lines(m, w, o)
        }
    } else {
        lines(order_spec(rows, o), w, o)
    }
}

pub open spec fn listing_spec(rows: Seq<Row>, w: ColumnWidths, o: DisplayOptions) -> Seq<Piece> {
    headlines_spec(o) + body_spec(rows, w, o)
}

/// Whether `filter_lower` occurs in `name_lower`; both are taken as given, already
/// in lower case.
pub fn name_matches_folded(name_lower: &str, filter_lower: &str) -> (r: bool)
    ensures
        r == contains_seq(name_lower@, filter_lower@),
{
    let ghost h = name_lower@;
    let ghost n = filter_lower@;
    let hl = name_lower.unicode_len();
    let nl = filter_lower.unicode_len();
    if nl > hl {
        return false;
    }
    let last = hl - nl;
    let mut i: usize = 0;
    loop
        invariant
            h == name_lower@,
            n == filter_lower@,
            hl == h.len(),
            nl == n.len(),
            last == hl - nl,
            i <= last,
            forall|k: int| 0 <= k < i ==> !occurs_at(h, n, k),
        decreases last - i,
    {
        let mut j: usize = 0;
        let mut ok = true;
        while j < nl && ok
            invariant
                h == name_lower@,
                n == filter_lower@,
                hl == h.len(),
                nl == n.len(),
                i + nl <= hl,
                j <= nl,
                ok ==> forall|m: int| 0 <= m < j ==> h[i + m] == n[m],
                !ok ==> !occurs_at(h, n, i as int),
            decreases nl - j,
        {
            if name_lower.get_char(i + j) != filter_lower.get_char(j) {
                ok = false;
                proof {
                    assert(h.subrange(i as int, i + nl)[j as int] == h[i + j]);
                }
            }
            j = j + 1;
        }
        if ok {
            assert(h.subrange(i as int, i + nl) =~= n);
            assert(occurs_at(h, n, i as int));
            return true;
        }
        if i == last {
            return false;
        }
        i = i + 1;
    }
}

/// Whether a row's name matches the filter, case aside.
pub fn name_matches(row: &Row, filter_lower: &String) -> (r: bool)
    ensures
        r == contains_seq(lower_of(row.name@), filter_lower@),
{
    let name_lower = lowercase(row.name.as_str());
    name_matches_folded(name_lower.as_str(), filter_lower.as_str())
}

fn hidden(name: &String) -> (r: bool)
    ensures
        r == is_hidden(name@),
{
    name.as_str().unicode_len() > 0 && name.as_str().get_char(0) == '.'
}

proof fn lemma_lines_append(a: Seq<Row>, b: Seq<Row>, w: ColumnWidths, o: DisplayOptions)
    ensures
        lines(a + b, w, o) == lines(a, w, o) + lines(b, w, o),
    decreases b.len(),
{
    if b.len() == 0 {
        assert(a + b =~= a);
        assert(lines(a, w, o) + lines(b, w, o) =~= lines(a, w, o));
    } else {
        lemma_lines_append(a, b.drop_last(), w, o);
        assert((a + b).drop_last() =~= a + b.drop_last());
        assert(lines(a + b, w, o) =~= lines(a, w, o) + lines(b, w, o));
    }
}

/// Appends the lines of the rows that `pass` picks, in order; returns how many.
fn emit_pass(
    rows: &Vec<Row>,
    widths: ColumnWidths,
    options: &DisplayOptions,
    filter_lower: &String,
    pass: Pass,
    out: &mut Vec<Fragment>,
) -> (n: usize)
    requires
        filter_lower@ == lower_of(options.name_filter@),
    ensures
        pieces(final(out)@) == pieces(old(out)@) + lines(pick(rows@, *options, pass), widths, *options),
        n == pick(rows@, *options, pass).len(),
{
    let ghost o = *options;
    let mut n: usize = 0;
    let mut i: usize = 0;
    proof {
        reveal(Seq::filter);
        assert(rows@.subrange(0, 0).filter(|r: Row| picked(r, o, pass)) =~= Seq::<Row>::empty());
        assert(pieces(out@) =~= pieces(old(out)@) + Seq::<Piece>::empty());
    }
    while i < rows.len()
        invariant
            i <= rows@.len(),
            o == *options,
            filter_lower@ == lower_of(o.name_filter@),
            n == pick(rows@.subrange(0, i as int), o, pass).len(),
            n <= i,
            pieces(out@) == pieces(old(out)@) + lines(pick(rows@.subrange(0, i as int), o, pass), widths, o),
        decreases rows.len() - i,
    {
        let row = &rows[i];
        let take = match pass {
            Pass::Matching => name_matches(row, filter_lower),
            Pass::First => (options.show_hidden || !hidden(&row.name)) && (options.sort_disabled
                || row.kind != Kind::File),
            Pass::Deferred => (options.show_hidden || !hidden(&row.name)) && !options.sort_disabled
                && row.kind == Kind::File,
        };
        let ghost before = pick(rows@.subrange(0, i as int), o, pass);
        proof {
            reveal(Seq::filter);
            let next = rows@.subrange(0, i as int + 1);
            assert(next.drop_last() =~= rows@.subrange(0, i as int));
            assert(next.last() == *row);
            assert(take == picked(*row, o, pass));
        }
        if take {
            extend(out, single(row, widths, options));
            n = n + 1;
            proof {
                assert(before.push(*row).drop_last() =~= before);
            }
        }
        i = i + 1;
    }
    proof {
        assert(rows@.subrange(0, rows@.len() as int) =~= rows@);
    }
    n
}

/// The whole listing of resolved rows: the header row, then the entries in the
/// order that the options ask for, each drawn with the given widths.
pub fn render_listing(rows: &Vec<Row>, widths: ColumnWidths, options: &DisplayOptions) -> (r: Vec<Fragment>)
    ensures
        pieces(r@) == listing_spec(rows@, widths, *options),
{
    let ghost o = *options;
    let mut out = draw_headlines(options);
    let filter_lower = lowercase(options.name_filter.as_str());
    if options.name_filter.as_str().unicode_len() > 0 {
        let n = emit_pass(rows, widths, options, &filter_lower, Pass::Matching, &mut out);
        if n == 0 {
            proof { reveal_strlit(" could not be found"); reveal_strlit("\n"); }
            let msg = options.name_filter.clone().concat(" could not be found");
            let ghost before = pieces(out@);
            push_piece(&mut out, msg, Style::Missing);
            push_str(&mut out, "\n", Style::Plain);
            proof {
                assert("\n"@ =~= newline());
                assert(pick(rows@, o, Pass::Matching) =~= Seq::<Row>::empty());
                assert(lines(Seq::<Row>::empty(), widths, o) =~= Seq::<Piece>::empty());
                assert(pieces(out@) =~= listing_spec(rows@, widths, o));
            }
        }
    } else {
        emit_pass(rows, widths, options, &filter_lower, Pass::First, &mut out);
        emit_pass(rows, widths, options, &filter_lower, Pass::Deferred, &mut out);
        proof {
            lemma_lines_append(pick(rows@, o, Pass::First), pick(rows@, o, Pass::Deferred), widths, o);
        }
    }
    assert(pieces(out@) =~= listing_spec(rows@, widths, o));
    out
}

/// In a normal listing with regrouping on, the entries drawn first are exactly the
/// visible entries that are not plain files and the deferred ones exactly the
/// visible plain files, each group in enumeration order; so every directory
/// comes before every plain file. With regrouping off, the listing order is the
/// visible entries in enumeration order.
pub proof fn lemma_directories_first(rows: Seq<Row>, o: DisplayOptions)
    ensures
        !o.sort_disabled ==> pick(rows, o, Pass::First) == rows.filter(
            |r: Row| is_visible(r, o) && r.kind != Kind::File,
        ),
        !o.sort_disabled ==> pick(rows, o, Pass::Deferred) == rows.filter(
            |r: Row| is_visible(r, o) && r.kind == Kind::File,
        ),
        forall|i: int|
            0 <= i < pick(rows, o, Pass::First).len() && !o.sort_disabled ==> (#[trigger] pick(
                rows,
                o,
                Pass::First,
            )[i]).kind != Kind::File,
        forall|i: int|
            0 <= i < pick(rows, o, Pass::Deferred).len() ==> (#[trigger] pick(
                rows,
                o,
                Pass::Deferred,
            )[i]).kind == Kind::File,
        o.sort_disabled ==> order_spec(rows, o) == rows.filter(|r: Row| is_visible(r, o)),
{
    let first = |r: Row| picked(r, o, Pass::First);
    let deferred = |r: Row| picked(r, o, Pass::Deferred);
    assert forall|i: int| 0 <= i < pick(rows, o, Pass::First).len() implies picked(
        pick(rows, o, Pass::First)[i],
        o,
        Pass::First,
    ) by {
        rows.lemma_filter_pred(first, i);
    }
    assert forall|i: int| 0 <= i < pick(rows, o, Pass::Deferred).len() implies picked(
        pick(rows, o, Pass::Deferred)[i],
        o,
        Pass::Deferred,
    ) by {
        rows.lemma_filter_pred(deferred, i);
    }
    if !o.sort_disabled {
        assert(first =~= (|r: Row| is_visible(r, o) && r.kind != Kind::File));
        assert(deferred =~= (|r: Row| is_visible(r, o) && r.kind == Kind::File));
    } else {
        assert(first =~= (|r: Row| is_visible(r, o)));
        let d = pick(rows, o, Pass::Deferred);
        if d.len() > 0 {
            rows.lemma_filter_pred(deferred, 0);
        }
        assert(order_spec(rows, o) =~= pick(rows, o, Pass::First));
    }
}

/// In wide mode the drawn entries hold no separator but single blanks: every
/// plain piece of the body, the blank that ends each entry included, is one
/// blank, so the listing itself adds no line break.
pub proof fn lemma_wide_body(rows: Seq<Row>, w: ColumnWidths, o: DisplayOptions)
    requires
        o.wide_mode,
    ensures
        plain_blank(lines(rows, w, o)),
    decreases rows.len(),
{
    if rows.len() > 0 {
        lemma_wide_body(rows.drop_last(), w, o);
        let l = line_spec(rows.last(), w, o);
        lemma_line_terminator(rows.last(), w, o);
        let end = seq![l.last()];
        assert(l.last() == (space(), Style::Plain));
        assert(plain_blank(end));
        lemma_plain_blank_concat(l.drop_last(), end);
        assert(l.drop_last() + end =~= l);
        lemma_plain_blank_concat(lines(rows.drop_last(), w, o), l);
    } else {
        assert(plain_blank(lines(rows, w, o)));
    }
}

/// The widths that a listing of `rows` uses.
pub open spec fn widths_for(rows: Seq<Row>) -> ColumnWidths {
    ColumnWidths { size: size_width(rows) as usize, group: group_width(rows) as usize }
}

/// Lists `entries`: resolves every entry's user name (and group name when that
/// column is shown), computes the widths over all of them, then draws the
/// listing. The first name that cannot be resolved stops the whole listing.
pub fn list(entries: &Vec<Entry>, options: &DisplayOptions) -> (r: Result<Vec<Fragment>, ListError>)
    ensures
        match r {
            Ok(out) => exists|rows: Seq<Row>|
                resolved_all(entries@, rows, options.show_group) && size_width(rows) <= usize::MAX && group_width(rows)
                    <= usize::MAX && #[trigger] pieces(out@) == listing_spec(rows, widths_for(rows), *options),
            Err(ListError::UnknownUser(u)) => exists|i: int|
                0 <= i < entries@.len() && #[trigger] entries@[i].uid == u,
            Err(ListError::UnknownGroup(g)) => options.show_group && exists|i: int|
                0 <= i < entries@.len() && #[trigger] entries@[i].gid == g,
        },
{
    let rows = match resolve_all(entries, options.show_group) {
        Ok(rows) => rows,
        Err(e) => {
            return Err(e);
        },
    };
    let widths = column_widths(&rows);
    let out = render_listing(&rows, widths, options);
    assert(widths == widths_for(rows@));
    Ok(out)
}

} // verus!
