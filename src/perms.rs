use vstd::prelude::*;

verus! {

/// Owner, group and other read/write/execute bits, in POSIX order.
pub const S_IRUSR: u16 = 0o400;
pub const S_IWUSR: u16 = 0o200;
pub const S_IXUSR: u16 = 0o100;
pub const S_IRGRP: u16 = 0o040;
pub const S_IWGRP: u16 = 0o020;
pub const S_IXGRP: u16 = 0o010;
pub const S_IROTH: u16 = 0o004;
pub const S_IWOTH: u16 = 0o002;
pub const S_IXOTH: u16 = 0o001;

/// One triple rendered as three characters: a letter where the bit is set, `-` where not.
pub open spec fn triplet_spec(r: bool, w: bool, x: bool) -> Seq<char> {
    seq![if r { 'r' } else { '-' }, if w { 'w' } else { '-' }, if x { 'x' } else { '-' }]
}

/// The owner's triple of `mode`.
pub open spec fn owner_spec(mode: u16) -> Seq<char> {
    triplet_spec(mode & S_IRUSR != 0, mode & S_IWUSR != 0, mode & S_IXUSR != 0)
}

/// The group's triple of `mode`.
pub open spec fn group_spec(mode: u16) -> Seq<char> {
    triplet_spec(mode & S_IRGRP != 0, mode & S_IWGRP != 0, mode & S_IXGRP != 0)
}

/// The others' triple of `mode`.
pub open spec fn other_spec(mode: u16) -> Seq<char> {
    triplet_spec(mode & S_IROTH != 0, mode & S_IWOTH != 0, mode & S_IXOTH != 0)
}

/// The nine permission characters of `mode`: owner, group, other.
pub open spec fn perms_spec(mode: u16) -> Seq<char> {
    owner_spec(mode) + group_spec(mode) + other_spec(mode)
}

/// Renders the triple of `mode` selected by the masks `read`, `write` and `execute`.
pub fn triplet(mode: u16, read: u16, write: u16, execute: u16) -> (r: String)
    ensures
        r@ == triplet_spec(mode & read != 0, mode & write != 0, mode & execute != 0),
{
    let rd = mode & read != 0;
    let wr = mode & write != 0;
    let ex = mode & execute != 0;
    let s: &str = if !rd && !wr && !ex {
        proof { reveal_strlit("---"); }
        "---"
    } else if !wr && !ex {
        proof { reveal_strlit("r--"); }
        "r--"
    } else if !rd && !ex {
        proof { reveal_strlit("-w-"); }
        "-w-"
    } else if !rd && !wr {
        proof { reveal_strlit("--x"); }
        "--x"
    } else if !wr {
        proof { reveal_strlit("r-x"); }
        "r-x"
    } else if !ex {
        proof { reveal_strlit("rw-"); }
        "rw-"
    } else if !rd {
        proof { reveal_strlit("-wx"); }
        "-wx"
    } else {
        proof { reveal_strlit("rwx"); }
        "rwx"
    };
    let r = String::from_str(s);
    assert(r@ =~= triplet_spec(rd, wr, ex));
    r
}

/// Renders the nine permission characters of `mode`.
pub fn perms(mode: u16) -> (r: String)
    ensures
        r@ == perms_spec(mode),
        r@.len() == 9,
{
    let user = triplet(mode, S_IRUSR, S_IWUSR, S_IXUSR);
    let group = triplet(mode, S_IRGRP, S_IWGRP, S_IXGRP);
    let other = triplet(mode, S_IROTH, S_IWOTH, S_IXOTH);
    let r = user.concat(group.as_str());
    r.concat(other.as_str())
}

/// Every one of the eight combinations of a triple renders as its three letters,
/// in order, with `-` in place of each unset bit.
pub proof fn lemma_triplet_total(r: bool, w: bool, x: bool)
    ensures
        triplet_spec(r, w, x).len() == 3,
        triplet_spec(r, w, x)[0] == (if r { 'r' } else { '-' }),
        triplet_spec(r, w, x)[1] == (if w { 'w' } else { '-' }),
        triplet_spec(r, w, x)[2] == (if x { 'x' } else { '-' }),
        triplet_spec(false, false, false) == seq!['-', '-', '-'],
        triplet_spec(true, false, false) == seq!['r', '-', '-'],
        triplet_spec(false, true, false) == seq!['-', 'w', '-'],
        triplet_spec(false, false, true) == seq!['-', '-', 'x'],
        triplet_spec(true, true, false) == seq!['r', 'w', '-'],
        triplet_spec(true, false, true) == seq!['r', '-', 'x'],
        triplet_spec(false, true, true) == seq!['-', 'w', 'x'],
        triplet_spec(true, true, true) == seq!['r', 'w', 'x'],
{
}

} // verus!
