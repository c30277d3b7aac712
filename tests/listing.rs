use nat_ls::{
    column_widths, draw_headline, draw_headlines, file_perms, file_size, get_user_name, list,
    name_matches_folded, perms, render_listing, resolve, show_file_name, single, time_mod,
    time_text_of, triplet, Cli, ColumnWidths, DisplayOptions, Entry, Fragment, Kind, ListError,
    Row, Style,
};

fn text(frags: &[Fragment]) -> String {
    frags.iter().map(|f| f.text.clone()).collect::<Vec<String>>().join("")
}

fn row(name: &str, kind: Kind, mode: u16, size: &str) -> Row {
    Row {
        name: name.to_string(),
        kind,
        mode,
        size_text: size.to_string(),
        time_text: None,
        user: "alice".to_string(),
        group: "staff".to_string(),
    }
}

fn defaults() -> DisplayOptions {
    DisplayOptions {
        headline: false,
        show_hidden: false,
        wide_mode: false,
        show_time: true,
        show_size: true,
        show_group: true,
        show_perms: true,
        show_user: true,
        sort_disabled: false,
        name_filter: String::new(),
    }
}

fn names_only() -> DisplayOptions {
    DisplayOptions {
        show_time: false,
        show_size: false,
        show_group: false,
        show_perms: false,
        show_user: false,
        ..defaults()
    }
}

#[test]
fn triplet_all_combinations() {
    assert_eq!(triplet(0, 4, 2, 1), "---");
    assert_eq!(triplet(4, 4, 2, 1), "r--");
    assert_eq!(triplet(2, 4, 2, 1), "-w-");
    assert_eq!(triplet(1, 4, 2, 1), "--x");
    assert_eq!(triplet(6, 4, 2, 1), "rw-");
    assert_eq!(triplet(5, 4, 2, 1), "r-x");
    assert_eq!(triplet(3, 4, 2, 1), "-wx");
    assert_eq!(triplet(7, 4, 2, 1), "rwx");
}

#[test]
fn perms_of_common_modes() {
    assert_eq!(perms(0o755), "rwxr-xr-x");
    assert_eq!(perms(0o644), "rw-r--r--");
    assert_eq!(perms(0o040755), "rwxr-xr-x");
    assert_eq!(perms(0), "---------");
    assert_eq!(perms(0o777), "rwxrwxrwx");
}

#[test]
fn file_perms_column() {
    let f = file_perms(0o750);
    assert_eq!(f.len(), 4);
    assert_eq!(f[0].text, "rwx");
    assert_eq!(f[0].style, Style::PermsOwner);
    assert_eq!(f[1].text, "r-x");
    assert_eq!(f[1].style, Style::PermsGroup);
    assert_eq!(f[2].text, "---");
    assert_eq!(f[2].style, Style::PermsOther);
    assert_eq!(f[3].text, " ");
    assert_eq!(f[3].style, Style::Plain);
}

#[test]
fn widths_have_floors() {
    let w = column_widths(&vec![]);
    assert_eq!(w, ColumnWidths { size: 4, group: 8 });
    let w = column_widths(&vec![row("a", Kind::File, 0o644, "1 B")]);
    assert_eq!(w, ColumnWidths { size: 4, group: 8 });
}

#[test]
fn widths_grow_to_longest() {
    let mut a = row("a", Kind::File, 0o644, "10 B");
    let mut b = row("b", Kind::File, 0o644, "1.2 MB");
    b.user = "averyverylongname".to_string();
    a.user = "bob".to_string();
    let w = column_widths(&vec![a.clone(), b.clone()]);
    assert_eq!(w, ColumnWidths { size: 6, group: 17 });
    let w2 = column_widths(&vec![b, a]);
    assert_eq!(w, w2);
}

#[test]
fn size_is_right_aligned() {
    let f = file_size(6, &"10 B".to_string());
    assert_eq!(f[0].text, "  10 B");
    assert_eq!(f[0].style, Style::Size);
    assert_eq!(f[1].text, " ");
    let f = file_size(4, &"1.2 MB".to_string());
    assert_eq!(f[0].text, "1.2 MB");
}

#[test]
fn time_column_only_when_known() {
    assert!(time_mod(&None).is_empty());
    let f = time_mod(&Some("Jan  1 00:00:00".to_string()));
    assert_eq!(text(&f), "Jan  1 00:00:00 ");
    assert_eq!(f[0].style, Style::Time);
}

#[test]
fn time_text_of_epoch() {
    assert_eq!(time_text_of(Some(0)), Some("Jan  1 00:00:00".to_string()));
    assert_eq!(time_text_of(Some(86400 * 31 + 3661)), Some("Feb  1 01:01:01".to_string()));
    assert_eq!(time_text_of(None), None);
    assert_eq!(time_text_of(Some(-86400)), Some("Dec 31 00:00:00".to_string()));
}

#[test]
fn file_names_and_terminators() {
    let f = show_file_name(&"docs".to_string(), Kind::Directory, false);
    assert_eq!(f[0].text, "docs/");
    assert_eq!(f[0].style, Style::DirName);
    assert_eq!(f[1].text, "\n");
    let f = show_file_name(&"a.txt".to_string(), Kind::File, true);
    assert_eq!(f[0].text, "a.txt");
    assert_eq!(f[0].style, Style::FileName);
    assert_eq!(f[1].text, " ");
}

#[test]
fn single_line_all_columns() {
    let mut r = row("a.txt", Kind::File, 0o644, "10 B");
    r.time_text = Some("Mar  3 10:00:00".to_string());
    let w = ColumnWidths { size: 6, group: 8 };
    let line = single(&r, w, &defaults());
    assert_eq!(text(&line), "rw-r--r--   10 B Mar  3 10:00:00 staff alice a.txt\n");
}

#[test]
fn disabling_size_removes_only_that_field() {
    let r = row("a.txt", Kind::File, 0o644, "10 B");
    let w = ColumnWidths { size: 6, group: 8 };
    let full = single(&r, w, &defaults());
    let opts = DisplayOptions { show_size: false, ..defaults() };
    let less = single(&r, w, &opts);
    assert_eq!(text(&full), "rw-r--r--   10 B staff alice a.txt\n");
    assert_eq!(text(&less), "rw-r--r-- staff alice a.txt\n");
    assert_eq!(less.len() + 2, full.len());
    assert!(less.iter().all(|f| f.style != Style::Size));
}

#[test]
fn headline_lists_active_columns() {
    let opts = DisplayOptions { headline: true, ..defaults() };
    let h = draw_headlines(&opts);
    assert_eq!(text(&h), "permissions size last modified group user name\n");
    assert!(h.iter().filter(|f| f.text.trim() != "").all(|f| f.style == Style::Heading));
    let opts = DisplayOptions { headline: true, show_perms: false, show_time: false, ..defaults() };
    assert_eq!(text(&draw_headlines(&opts)), "size group user name\n");
    assert!(draw_headlines(&defaults()).is_empty());
}

#[test]
fn headline_with_underline_padding() {
    let h = draw_headline("size", 2, true);
    assert_eq!(text(&h), " size  ");
    assert_eq!(h[0].style, Style::Plain);
    assert_eq!(h[1].style, Style::Heading);
    assert_eq!(h.len(), 4);
}

#[test]
fn directories_before_files() {
    let rows = vec![
        row("a.txt", Kind::File, 0o644, "1 B"),
        row("docs", Kind::Directory, 0o755, "4 kB"),
        row("b.txt", Kind::File, 0o644, "1 B"),
        row("src", Kind::Directory, 0o755, "4 kB"),
    ];
    let w = column_widths(&rows);
    let out = render_listing(&rows, w, &names_only());
    assert_eq!(text(&out), "docs/\nsrc/\na.txt\nb.txt\n");
}

#[test]
fn unsorted_keeps_enumeration_order() {
    let rows = vec![
        row("a.txt", Kind::File, 0o644, "1 B"),
        row("docs", Kind::Directory, 0o755, "4 kB"),
        row("b.txt", Kind::File, 0o644, "1 B"),
    ];
    let opts = DisplayOptions { sort_disabled: true, ..names_only() };
    let out = render_listing(&rows, column_widths(&rows), &opts);
    assert_eq!(text(&out), "a.txt\ndocs/\nb.txt\n");
}

#[test]
fn filter_is_case_insensitive_substring() {
    let rows = vec![
        row("Readme.md", Kind::File, 0o644, "1 B"),
        row("report.txt", Kind::File, 0o644, "1 B"),
        row("notes.md", Kind::File, 0o644, "1 B"),
    ];
    let opts = DisplayOptions { name_filter: "re".to_string(), ..names_only() };
    let out = render_listing(&rows, column_widths(&rows), &opts);
    assert_eq!(text(&out), "Readme.md\nreport.txt\n");
    let opts = DisplayOptions { name_filter: "RE".to_string(), ..names_only() };
    let out = render_listing(&rows, column_widths(&rows), &opts);
    assert_eq!(text(&out), "Readme.md\nreport.txt\n");
}

#[test]
fn filter_without_match_reports_not_found() {
    let rows = vec![
        row("Readme.md", Kind::File, 0o644, "1 B"),
        row("report.txt", Kind::File, 0o644, "1 B"),
        row("notes.md", Kind::File, 0o644, "1 B"),
    ];
    let opts = DisplayOptions { name_filter: "zzz".to_string(), ..names_only() };
    let out = render_listing(&rows, column_widths(&rows), &opts);
    assert_eq!(out.len(), 2);
    assert_eq!(out[0].text, "zzz could not be found");
    assert_eq!(out[0].style, Style::Missing);
    assert_eq!(out[1].text, "\n");
}

#[test]
fn filter_ignores_hidden_and_grouping() {
    let rows = vec![
        row(".rc", Kind::File, 0o644, "1 B"),
        row("rdir", Kind::Directory, 0o755, "1 B"),
    ];
    let opts = DisplayOptions { name_filter: "r".to_string(), ..names_only() };
    let out = render_listing(&rows, column_widths(&rows), &opts);
    assert_eq!(text(&out), ".rc\nrdir/\n");
}

#[test]
fn substring_search() {
    assert!(name_matches_folded("readme.md", "re"));
    assert!(name_matches_folded("abc", ""));
    assert!(name_matches_folded("abc", "abc"));
    assert!(!name_matches_folded("ab", "abc"));
    assert!(!name_matches_folded("notes.md", "re"));
    assert!(name_matches_folded("aab", "ab"));
}

#[test]
fn hidden_entries() {
    let rows = vec![
        row(".gitignore", Kind::File, 0o644, "1 B"),
        row("main.rs", Kind::File, 0o644, "1 B"),
    ];
    let out = render_listing(&rows, column_widths(&rows), &names_only());
    assert_eq!(text(&out), "main.rs\n");
    let opts = DisplayOptions { show_hidden: true, ..names_only() };
    let out = render_listing(&rows, column_widths(&rows), &opts);
    assert_eq!(text(&out), ".gitignore\nmain.rs\n");
}

#[test]
fn wide_mode_separates_with_blanks() {
    let rows = vec![
        row("docs", Kind::Directory, 0o755, "1 B"),
        row("a.txt", Kind::File, 0o644, "1 B"),
    ];
    let opts = DisplayOptions { wide_mode: true, ..names_only() };
    let out = render_listing(&rows, column_widths(&rows), &opts);
    assert_eq!(text(&out), "docs/ a.txt ");
    assert!(!text(&out).contains('\n'));
    let out = render_listing(&rows, column_widths(&rows), &names_only());
    assert_eq!(text(&out).matches('\n').count(), 2);
}

#[test]
fn two_entry_directory() {
    let rows = vec![
        row("a.txt", Kind::File, 0o644, "10 B"),
        row("docs", Kind::Directory, 0o755, "4.1 kB"),
    ];
    let opts = DisplayOptions { show_time: false, ..defaults() };
    let w = column_widths(&rows);
    assert_eq!(w.size, 6);
    let out = render_listing(&rows, w, &opts);
    assert_eq!(
        text(&out),
        "rwxr-xr-x 4.1 kB staff alice docs/\nrw-r--r--   10 B staff alice a.txt\n"
    );
}

#[test]
fn cli_switches_turn_columns_off() {
    let cli = Cli {
        path: ".".to_string(),
        file: "x".to_string(),
        headline_on: true,
        hidden_files: true,
        wide_mode: false,
        time_on: true,
        size_on: false,
        group_on: true,
        perms_on: false,
        user_on: true,
        is_sorted: true,
    };
    let o = cli.options();
    assert!(o.headline && o.show_hidden && !o.wide_mode);
    assert!(!o.show_time && o.show_size && !o.show_group && o.show_perms && !o.show_user);
    assert!(o.sort_disabled);
    assert_eq!(o.name_filter, "x");
}

#[test]
fn unknown_user_is_an_error() {
    let e = Entry {
        name: "x".to_string(),
        kind: Kind::File,
        mode: 0o644,
        size_text: "1 B".to_string(),
        mtime: None,
        uid: 3_999_999_999,
        gid: 0,
    };
    assert_eq!(resolve(&e, true).unwrap_err(), ListError::UnknownUser(3_999_999_999));
    assert_eq!(list(&vec![e], &defaults()).unwrap_err(), ListError::UnknownUser(3_999_999_999));
}

#[test]
fn unknown_group_is_an_error_only_when_shown() {
    let e = Entry {
        name: "x".to_string(),
        kind: Kind::File,
        mode: 0o644,
        size_text: "1 B".to_string(),
        mtime: None,
        uid: 0,
        gid: 3_999_999_998,
    };
    assert_eq!(resolve(&e, true).unwrap_err(), ListError::UnknownGroup(3_999_999_998));
    let r = resolve(&e, false).unwrap();
    assert_eq!(r.group, "");
    assert_eq!(Some(r.user), get_user_name(0));
    let opts = DisplayOptions { show_group: false, ..names_only() };
    assert_eq!(text(&list(&vec![e], &opts).unwrap()), "x\n");
}

#[test]
fn resolve_keeps_entry_fields() {
    let e = Entry {
        name: "docs".to_string(),
        kind: Kind::Directory,
        mode: 0o755,
        size_text: "4 kB".to_string(),
        mtime: Some(0),
        uid: 0,
        gid: 0,
    };
    let r = resolve(&e, true).unwrap();
    assert_eq!(r.name, "docs");
    assert_eq!(r.kind, Kind::Directory);
    assert_eq!(Some(r.user), get_user_name(0));
    assert_eq!(r.time_text, Some("Jan  1 00:00:00".to_string()));
    let out = list(&vec![e], &names_only()).unwrap();
    assert_eq!(text(&out), "docs/\n");
}
