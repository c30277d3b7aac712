use vstd::prelude::*;

verus! {

/// What an entry is, as its own metadata (links not followed) says.
#[derive(Clone, Copy, Debug, PartialEq, Eq, Structural)]
pub enum Kind {
    File,
    Directory,
    Other,
}

/// The display attribute a fragment of output is drawn with.
#[derive(Clone, Copy, Debug, PartialEq, Eq, Structural)]
pub enum Style {
    Plain,
    PermsOwner,
    PermsGroup,
    PermsOther,
    Size,
    Time,
    Group,
    User,
    DirName,
    FileName,
    Heading,
    Missing,
}

/// A piece of output text together with how it is drawn.
#[derive(Clone, Debug)]
pub struct Fragment {
    pub text: String,
    pub style: Style,
}

/// What a fragment shows: its characters and its style.
pub type Piece = (Seq<char>, Style);

pub open spec fn pieces(v: Seq<Fragment>) -> Seq<Piece> {
    v.map_values(|f: Fragment| (f.text@, f.style))
}

/// An entry as the metadata source hands it over: name, kind, permission bits,
/// human-readable size, modification time in seconds since the epoch (if known),
/// and owner ids.
#[derive(Clone, Debug)]
pub struct Entry {
    pub name: String,
    pub kind: Kind,
    pub mode: u16,
    pub size_text: String,
    pub mtime: Option<i64>,
    pub uid: u32,
    pub gid: u32,
}

/// An entry with its owner names resolved and its time rendered: everything a
/// line is drawn from.
#[derive(Clone, Debug)]
pub struct Row {
    pub name: String,
    pub kind: Kind,
    pub mode: u16,
    pub size_text: String,
    pub time_text: Option<String>,
    pub user: String,
    pub group: String,
}

/// Which columns are shown and how entries are laid out.
#[derive(Clone, Debug)]
pub struct DisplayOptions {
    pub headline: bool,
    pub show_hidden: bool,
    pub wide_mode: bool,
    pub show_time: bool,
    pub show_size: bool,
    pub show_group: bool,
    pub show_perms: bool,
    pub show_user: bool,
    pub sort_disabled: bool,
    pub name_filter: String,
}

/// Widths shared by every line of one listing.
#[derive(Clone, Copy, Debug, PartialEq, Eq, Structural)]
pub struct ColumnWidths {
    pub size: usize,
    pub group: usize,
}

/// The command line as given: the column switches turn a column off when set.
#[derive(Clone, Debug)]
pub struct Cli {
    pub path: String,
    pub file: String,
    pub headline_on: bool,
    pub hidden_files: bool,
    pub wide_mode: bool,
    pub time_on: bool,
    pub size_on: bool,
    pub group_on: bool,
    pub perms_on: bool,
    pub user_on: bool,
    pub is_sorted: bool,
}

impl Cli {
    /// The display options the command line asks for, with each column switch
    /// turned into a positive "show" flag.
    pub fn options(&self) -> (r: DisplayOptions)
        ensures
            r.headline == self.headline_on,
            r.show_hidden == self.hidden_files,
            r.wide_mode == self.wide_mode,
            r.show_time == !self.time_on,
            r.show_size == !self.size_on,
            r.show_group == !self.group_on,
            r.show_perms == !self.perms_on,
            r.show_user == !self.user_on,
            r.sort_disabled == self.is_sorted,
            r.name_filter@ == self.file@,
    {
        DisplayOptions {
            headline: self.headline_on,
            show_hidden: self.hidden_files,
            wide_mode: self.wide_mode,
            show_time: !self.time_on,
            show_size: !self.size_on,
            show_group: !self.group_on,
            show_perms: !self.perms_on,
            show_user: !self.user_on,
            sort_disabled: self.is_sorted,
            name_filter: String::from_str(self.file.as_str()),
        }
    }
}

/// Appends one fragment to `out`.
pub fn push_piece(out: &mut Vec<Fragment>, text: String, style: Style)
    ensures
        pieces(final(out)@) == pieces(old(out)@).push((text@, style)),
{
    let ghost t = text@;
    out.push(Fragment { text, style });
    assert(pieces(out@) =~= pieces(old(out)@).push((t, style)));
}

/// Appends one fragment whose text is a copy of `text`.
pub fn push_str(out: &mut Vec<Fragment>, text: &str, style: Style)
    ensures
        pieces(final(out)@) == pieces(old(out)@).push((text@, style)),
{
    push_piece(out, String::from_str(text), style);
}

} // verus!
