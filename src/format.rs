use vstd::prelude::*;
use crate::model::{pieces, push_piece, push_str, ColumnWidths, DisplayOptions, Fragment, Kind, Piece, Row, Style};
use crate::perms::{
    group_spec, other_spec, owner_spec, triplet, S_IRGRP, S_IROTH, S_IRUSR, S_IWGRP, S_IWOTH,
    S_IWUSR, S_IXGRP, S_IXOTH, S_IXUSR,
};

verus! {

pub open spec fn space() -> Seq<char> {
    seq![' ']
}

pub open spec fn newline() -> Seq<char> {
    seq!['\n']
}

/// `n` blanks.
pub open spec fn blanks(n: nat) -> Seq<char> {
    Seq::new(n, |i: int| ' ')
}

/// `s` when `on`, else nothing.
pub open spec fn opt(on: bool, s: Seq<Piece>) -> Seq<Piece> {
    if on { s } else { Seq::empty() }
}

/// A column: its text, then the single blank that separates it from the next.
pub open spec fn column(text: Seq<char>, style: Style) -> Seq<Piece> {
    seq![(text, style), (space(), Style::Plain)]
}

/// `text` right-aligned in a field of `width` characters (left as is if longer).
pub open spec fn right_aligned(text: Seq<char>, width: nat) -> Seq<char> {
    if text.len() < width { blanks((width - text.len()) as nat) + text } else { text }
}

/// The name as shown: a directory's gets a trailing `/`.
pub open spec fn shown_name(name: Seq<char>, kind: Kind) -> Seq<char> {
    if kind == Kind::Directory { name.push('/') } else { name }
}

pub open spec fn name_style(kind: Kind) -> Style {
    if kind == Kind::Directory { Style::DirName } else { Style::FileName }
}

/// The name column and the entry's terminator: a blank in wide mode, a line break otherwise.
pub open spec fn name_spec(name: Seq<char>, kind: Kind, wide: bool) -> Seq<Piece> {
    seq![
        (shown_name(name, kind), name_style(kind)),
        (if wide { space() } else { newline() }, Style::Plain),
    ]
}

pub open spec fn time_spec(time_text: Option<String>) -> Seq<Piece> {
    match time_text {
        Some(t) => column(t@, Style::Time),
        None => Seq::empty(),
    }
}

/// The permissions column: the owner, group and other triples, each in its own
/// style, then the separating blank.
pub open spec fn perms_pieces(mode: u16) -> Seq<Piece> {
    seq![
        (owner_spec(mode), Style::PermsOwner),
        (group_spec(mode), Style::PermsGroup),
        (other_spec(mode), Style::PermsOther),
        (space(), Style::Plain),
    ]
}

/// One entry's line: the enabled columns in the fixed order permissions, size,
/// time, group, user, then the name.
pub open spec fn line_spec(row: Row, w: ColumnWidths, o: DisplayOptions) -> Seq<Piece> {
    perms_col(row, o) + size_col(row, w, o) + time_col(row, o) + group_col(row, o) + user_col(
        row,
        o,
    ) + name_spec(row.name@, row.kind, o.wide_mode)
}

/// The columns of a line, as `line_spec` lays them out.
pub open spec fn perms_col(row: Row, o: DisplayOptions) -> Seq<Piece> {
    opt(o.show_perms, perms_pieces(row.mode))
}

pub open spec fn size_col(row: Row, w: ColumnWidths, o: DisplayOptions) -> Seq<Piece> {
    opt(o.show_size, column(right_aligned(row.size_text@, w.size as nat), Style::Size))
}

pub open spec fn time_col(row: Row, o: DisplayOptions) -> Seq<Piece> {
    opt(o.show_time, time_spec(row.time_text))
}

pub open spec fn group_col(row: Row, o: DisplayOptions) -> Seq<Piece> {
    opt(o.show_group, column(row.group@, Style::Group))
}

pub open spec fn user_col(row: Row, o: DisplayOptions) -> Seq<Piece> {
    opt(o.show_user, column(row.user@, Style::User))
}

/// Turning one column off removes exactly that column (its text and its one
/// separating blank) from the line and leaves every other piece as it was.
pub proof fn lemma_column_off(row: Row, w: ColumnWidths, o: DisplayOptions)
    ensures
        ({
            let p = perms_col(row, o);
            let s = size_col(row, w, o);
            let t = time_col(row, o);
            let g = group_col(row, o);
            let u = user_col(row, o);
            let n = name_spec(row.name@, row.kind, o.wide_mode);
            &&& line_spec(row, w, o) == p + s + t + g + u + n
            &&& line_spec(row, w, DisplayOptions { show_perms: false, ..o }) == s + t + g + u + n
            &&& line_spec(row, w, DisplayOptions { show_size: false, ..o }) == p + t + g + u + n
            &&& line_spec(row, w, DisplayOptions { show_time: false, ..o }) == p + s + g + u + n
            &&& line_spec(row, w, DisplayOptions { show_group: false, ..o }) == p + s + t + u + n
            &&& line_spec(row, w, DisplayOptions { show_user: false, ..o }) == p + s + t + g + n
        }),
{
    let p = perms_col(row, o);
    let s = size_col(row, w, o);
    let t = time_col(row, o);
    let g = group_col(row, o);
    let u = user_col(row, o);
    let n = name_spec(row.name@, row.kind, o.wide_mode);
    let e = Seq::<Piece>::empty();
    assert(e + s =~= s);
    assert(p + e =~= p);
    assert(p + s + e =~= p + s);
    assert(p + s + t + e =~= p + s + t);
    assert(p + s + t + g + e =~= p + s + t + g);
}

/// Every plain piece of `s` is a single blank.
pub open spec fn plain_blank(s: Seq<Piece>) -> bool {
    forall|i: int| 0 <= i < s.len() && (#[trigger] s[i]).1 == Style::Plain ==> s[i].0 == space()
}

/// Joining two sequences whose plain pieces are single blanks keeps that so.
pub proof fn lemma_plain_blank_concat(a: Seq<Piece>, b: Seq<Piece>)
    requires
        plain_blank(a),
        plain_blank(b),
    ensures
        plain_blank(a + b),
{
    assert forall|i: int| 0 <= i < (a + b).len() && (#[trigger] (a + b)[i]).1 == Style::Plain implies (a
        + b)[i].0 == space() by {
        if i >= a.len() {
            assert((a + b)[i] == b[i - a.len()]);
        }
    }
}

/// Every line ends with exactly one terminator, a blank in wide mode and a line
/// break otherwise; every other plain piece of the line is a single blank, so the
/// separators hold no line break.
pub proof fn lemma_line_terminator(row: Row, w: ColumnWidths, o: DisplayOptions)
    ensures
        line_spec(row, w, o).len() >= 2,
        line_spec(row, w, o).last() == (
            if o.wide_mode { space() } else { newline() },
            Style::Plain,
        ),
        plain_blank(line_spec(row, w, o).drop_last()),
{
    let p = perms_col(row, o);
    let s = size_col(row, w, o);
    let t = time_col(row, o);
    let g = group_col(row, o);
    let u = user_col(row, o);
    let n = name_spec(row.name@, row.kind, o.wide_mode);
    lemma_column_off(row, w, o);
    let l = line_spec(row, w, o);
    assert(plain_blank(p));
    assert(plain_blank(s));
    assert(plain_blank(t));
    assert(plain_blank(g));
    assert(plain_blank(u));
    assert(plain_blank(n.drop_last()));
    lemma_plain_blank_concat(p, s);
    lemma_plain_blank_concat(p + s, t);
    lemma_plain_blank_concat(p + s + t, g);
    lemma_plain_blank_concat(p + s + t + g, u);
    lemma_plain_blank_concat(p + s + t + g + u, n.drop_last());
    assert(l.drop_last() =~= p + s + t + g + u + n.drop_last());
}

/// Appends `more` to `out`.
pub fn extend(out: &mut Vec<Fragment>, more: Vec<Fragment>)
    ensures
        pieces(final(out)@) == pieces(old(out)@) + pieces(more@),
{
    let mut more = more;
    let ghost m = more@;
    out.append(&mut more);
    assert(pieces(out@) =~= pieces(old(out)@) + pieces(m));
}

fn blank() -> (r: String)
    ensures
        r@ == space(),
{
    proof { reveal_strlit(" "); }
    let r = String::from_str(" ");
    assert(r@ =~= space());
    r
}

/// A column of `text` followed by its separator.
fn column_of(text: String, style: Style) -> (r: Vec<Fragment>)
    ensures
        pieces(r@) == column(text@, style),
{
    let mut out: Vec<Fragment> = Vec::new();
    push_piece(&mut out, text, style);
    push_piece(&mut out, blank(), Style::Plain);
    assert(pieces(out@) =~= column(text@, style));
    out
}

/// The permissions column of a mode.
pub fn file_perms(mode: u16) -> (r: Vec<Fragment>)
    ensures
        pieces(r@) == perms_pieces(mode),
{
    let mut out: Vec<Fragment> = Vec::new();
    push_piece(&mut out, triplet(mode, S_IRUSR, S_IWUSR, S_IXUSR), Style::PermsOwner);
    push_piece(&mut out, triplet(mode, S_IRGRP, S_IWGRP, S_IXGRP), Style::PermsGroup);
    push_piece(&mut out, triplet(mode, S_IROTH, S_IWOTH, S_IXOTH), Style::PermsOther);
    push_piece(&mut out, blank(), Style::Plain);
    assert(pieces(out@) =~= perms_pieces(mode));
    out
}

/// The size column: the size text right-aligned to `size_count` characters.
pub fn file_size(size_count: usize, size_text: &String) -> (r: Vec<Fragment>)
    ensures
        pieces(r@) == column(right_aligned(size_text@, size_count as nat), Style::Size),
{
    let len = size_text.as_str().unicode_len();
    let mut field = String::new();
    if len < size_count {
        let pad = size_count - len;
        let mut k: usize = 0;
        while k < pad
            invariant
                k <= pad,
                field@ =~= blanks(k as nat),
            decreases pad - k,
        {
            proof { reveal_strlit(" "); }
            field.append(" ");
            k = k + 1;
        }
    }
    let field = field.concat(size_text.as_str());
    assert(field@ =~= right_aligned(size_text@, size_count as nat));
    column_of(field, Style::Size)
}

/// The time column when the time is known, nothing otherwise.
pub fn time_mod(time_text: &Option<String>) -> (r: Vec<Fragment>)
    ensures
        pieces(r@) == time_spec(*time_text),
{
    match time_text {
        Some(t) => column_of(t.clone(), Style::Time),
        None => {
            let r: Vec<Fragment> = Vec::new();
            assert(pieces(r@) =~= Seq::<Piece>::empty());
            r
        },
    }
}

/// The group column.
pub fn show_group_name(group: &String) -> (r: Vec<Fragment>)
    ensures
        pieces(r@) == column(group@, Style::Group),
{
    column_of(group.clone(), Style::Group)
}

/// The user column.
pub fn show_user_name(user: &String) -> (r: Vec<Fragment>)
    ensures
        pieces(r@) == column(user@, Style::User),
{
    column_of(user.clone(), Style::User)
}

/// The name column and the entry's terminator.
pub fn show_file_name(name: &String, kind: Kind, wide_mode: bool) -> (r: Vec<Fragment>)
    ensures
        pieces(r@) == name_spec(name@, kind, wide_mode),
{
    let mut out: Vec<Fragment> = Vec::new();
    let mut shown = name.clone();
    if kind == Kind::Directory {
        proof { reveal_strlit("/"); }
        shown.append("/");
        assert(shown@ =~= name@.push('/'));
    }
    let style = if kind == Kind::Directory { Style::DirName } else { Style::FileName };
    push_piece(&mut out, shown, style);
    if wide_mode {
        push_piece(&mut out, blank(), Style::Plain);
    } else {
        proof { reveal_strlit("\n"); }
        let nl = String::from_str("\n");
        assert(nl@ =~= newline());
        push_piece(&mut out, nl, Style::Plain);
    }
    assert(pieces(out@) =~= name_spec(name@, kind, wide_mode));
    out
}

/// One entry's line, drawn with the shared widths and the enabled columns.
pub fn single(row: &Row, widths: ColumnWidths, options: &DisplayOptions) -> (r: Vec<Fragment>)
    ensures
        pieces(r@) == line_spec(*row, widths, *options),
{
    let mut out: Vec<Fragment> = Vec::new();
    if options.show_perms {
        extend(&mut out, file_perms(row.mode));
    }
    let ghost a = pieces(out@);
    if options.show_size {
        extend(&mut out, file_size(widths.size, &row.size_text));
    }
    let ghost b = pieces(out@);
    if options.show_time {
        extend(&mut out, time_mod(&row.time_text));
    }
    let ghost c = pieces(out@);
    if options.show_group {
        extend(&mut out, show_group_name(&row.group));
    }
    let ghost d = pieces(out@);
    if options.show_user {
        extend(&mut out, show_user_name(&row.user));
    }
    let ghost e = pieces(out@);
    extend(&mut out, show_file_name(&row.name, row.kind, options.wide_mode));
    proof {
        let o = *options;
        assert(a =~= perms_col(*row, o));
        assert(b =~= a + size_col(*row, widths, o));
        assert(c =~= b + time_col(*row, o));
        assert(d =~= c + group_col(*row, o));
        assert(e =~= d + user_col(*row, o));
        assert(pieces(out@) =~= line_spec(*row, widths, o));
    }
    out
}

/// `to` underlined blanks.
pub open spec fn line_spec_of(to: nat) -> Seq<Piece> {
    Seq::new(to, |i: int| (space(), Style::Heading))
}

/// A heading: a separating blank when asked for, the title underlined, then
/// `line_length` underlined blanks.
pub open spec fn headline_spec(input: Seq<char>, line_length: nat, print_separator: bool) -> Seq<Piece> {
    opt(print_separator, seq![(space(), Style::Plain)]) + seq![(input, Style::Heading)]
        + line_spec_of(line_length)
}

/// The header row: the title of each enabled column in the fixed column order,
/// each underlined and separated from the one before by one blank, then a line
/// break; nothing when the header row is off.
pub open spec fn headlines_spec(o: DisplayOptions) -> Seq<Piece> {
    let p = o.show_perms;
    let s = p || o.show_size;
    let t = s || o.show_time;
    let g = t || o.show_group;
    let u = g || o.show_user;
    opt(
        o.headline,
        opt(o.show_perms, headline_spec("permissions"@, 0, false))
            + opt(o.show_size, headline_spec("size"@, 0, p))
            + opt(o.show_time, headline_spec("last modified"@, 0, s))
            + opt(o.show_group, headline_spec("group"@, 0, t))
            + opt(o.show_user, headline_spec("user"@, 0, g))
            + headline_spec("name"@, 0, u) + seq![(newline(), Style::Plain)],
    )
}

/// Appends `to` underlined blanks.
fn draw_line(out: &mut Vec<Fragment>, to: usize)
    ensures
        pieces(final(out)@) == pieces(old(out)@) + line_spec_of(to as nat),
{
    let mut k: usize = 0;
    while k < to
        invariant
            k <= to,
            pieces(out@) == pieces(old(out)@) + line_spec_of(k as nat),
        decreases to - k,
    {
        push_piece(out, blank(), Style::Heading);
        k = k + 1;
        assert(pieces(out@) =~= pieces(old(out)@) + line_spec_of(k as nat));
    }
}

/// One column title of the header row.
pub fn draw_headline(input: &str, line_length: usize, print_separator: bool) -> (r: Vec<Fragment>)
    ensures
        pieces(r@) == headline_spec(input@, line_length as nat, print_separator),
{
    let mut out: Vec<Fragment> = Vec::new();
    if print_separator {
        push_piece(&mut out, blank(), Style::Plain);
    }
    push_str(&mut out, input, Style::Heading);
    let ghost before = pieces(out@);
    assert(before =~= opt(print_separator, seq![(space(), Style::Plain)]) + seq![(input@, Style::Heading)]);
    draw_line(&mut out, line_length);
    out
}

/// The header row for the enabled columns.
pub fn draw_headlines(options: &DisplayOptions) -> (r: Vec<Fragment>)
    ensures
        pieces(r@) == headlines_spec(*options),
{
    let mut out: Vec<Fragment> = Vec::new();
    if !options.headline {
        assert(pieces(out@) =~= headlines_spec(*options));
        return out;
    }
    let mut any = false;
    if options.show_perms {
        extend(&mut out, draw_headline("permissions", 0, any));
        any = true;
    }
    let ghost a = pieces(out@);
    if options.show_size {
        extend(&mut out, draw_headline("size", 0, any));
        any = true;
    }
    let ghost b = pieces(out@);
    if options.show_time {
        extend(&mut out, draw_headline("last modified", 0, any));
        any = true;
    }
    let ghost c = pieces(out@);
    if options.show_group {
        extend(&mut out, draw_headline("group", 0, any));
        any = true;
    }
    let ghost d = pieces(out@);
    if options.show_user {
        extend(&mut out, draw_headline("user", 0, any));
        any = true;
    }
    let ghost e = pieces(out@);
    extend(&mut out, draw_headline("name", 0, any));
    proof { reveal_strlit("\n"); }
    let ghost f = pieces(out@);
    push_str(&mut out, "\n", Style::Plain);
    proof {
        let o = *options;
        let p = o.show_perms;
        let s = p || o.show_size;
        let t = s || o.show_time;
        let g = t || o.show_group;
        let u = g || o.show_user;
        assert("\n"@ =~= newline());
        assert(a =~= opt(o.show_perms, headline_spec("permissions"@, 0, false)));
        assert(b =~= a + opt(o.show_size, headline_spec("size"@, 0, p)));
        assert(c =~= b + opt(o.show_time, headline_spec("last modified"@, 0, s)));
        assert(d =~= c + opt(o.show_group, headline_spec("group"@, 0, t)));
        assert(e =~= d + opt(o.show_user, headline_spec("user"@, 0, g)));
        assert(f =~= e + headline_spec("name"@, 0, u));
        assert(pieces(out@) =~= headlines_spec(o));
    }
    out
}

} // verus!
