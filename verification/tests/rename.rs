use massive_renamer::rename::{
    content_outcome, handle_work, name_outcome, process_file_content, process_file_name, Action,
    ContentStep, Event, NameStep, Progress, RenameMode, RenameWork, Stage,
};

fn unit(path: &str, find: &str, replace: &str, mode: RenameMode) -> RenameWork {
    RenameWork {
        path: String::from(path),
        find: String::from(find),
        replace: String::from(replace),
        use_regex: false,
        mode,
        is_root: false,
        silence: false,
    }
}

fn finished(text: &str) -> Action {
    Action::Finish(Some(String::from(text)), Vec::new())
}

#[test]
fn scopes_cover_what_they_name() {
    assert!(RenameMode::Both.is_replace_name());
    assert!(RenameMode::Both.is_replace_content());
    assert!(RenameMode::NameOnly.is_replace_name());
    assert!(!RenameMode::NameOnly.is_replace_content());
    assert!(!RenameMode::ContentOnly.is_replace_name());
    assert!(RenameMode::ContentOnly.is_replace_content());
}

#[test]
fn scope_from_targets() {
    assert_eq!(RenameMode::from_targets(true, true), Some(RenameMode::Both));
    assert_eq!(RenameMode::from_targets(true, false), Some(RenameMode::NameOnly));
    assert_eq!(RenameMode::from_targets(false, true), Some(RenameMode::ContentOnly));
    assert_eq!(RenameMode::from_targets(false, false), None);
}

#[test]
fn scope_from_switches() {
    assert_eq!(RenameMode::from_switches(false, false), RenameMode::Both);
    assert_eq!(RenameMode::from_switches(true, false), RenameMode::NameOnly);
    assert_eq!(RenameMode::from_switches(false, true), RenameMode::ContentOnly);
    assert_eq!(RenameMode::from_switches(true, true), RenameMode::NameOnly);
}

#[test]
fn root_unit_is_marked() {
    let root = RenameWork::root(
        String::from("/d"),
        String::from("a"),
        String::from("b"),
        true,
        RenameMode::ContentOnly,
        true,
    );
    assert_eq!(root.path, "/d");
    assert_eq!(root.find, "a");
    assert_eq!(root.replace, "b");
    assert!(root.use_regex);
    assert_eq!(root.mode, RenameMode::ContentOnly);
    assert!(root.is_root);
    assert!(root.silence);
}

#[test]
fn child_units_carry_the_parameters() {
    let mut root = unit("/d", "a", "b", RenameMode::Both);
    root.is_root = true;
    let units = root.children(&vec![String::from("/d/x"), String::from("/d/y")]);
    assert_eq!(
        units,
        vec![unit("/d/x", "a", "b", RenameMode::Both), unit("/d/y", "a", "b", RenameMode::Both)]
    );
    assert_eq!(root.child(String::from("/d/z")), unit("/d/z", "a", "b", RenameMode::Both));
    assert_eq!(root.children(&Vec::new()), Vec::new());
}

#[test]
fn name_with_a_match_is_renamed() {
    assert_eq!(
        process_file_name(Some(b"report_old.txt"), "old", "new", false),
        NameStep::Rename(String::from("report_new.txt"))
    );
}

#[test]
fn name_without_a_match_is_kept() {
    assert_eq!(process_file_name(Some(b"report.txt"), "old", "new", false), NameStep::Keep);
}

#[test]
fn name_by_pattern_is_renamed() {
    assert_eq!(
        process_file_name(Some(b"img_0042.png"), r"img_(\d+)", "photo-$1", true),
        NameStep::Rename(String::from("photo-0042.png"))
    );
}

#[test]
fn name_that_is_no_text_is_skipped() {
    assert_eq!(
        process_file_name(Some(&[b'a', 0xff, b'b']), "a", "b", false),
        NameStep::Skip(String::from("File \"a\u{fffd}b\" has an invalid name."))
    );
}

#[test]
fn missing_name_is_skipped() {
    assert_eq!(
        process_file_name(None, "a", "b", false),
        NameStep::Skip(String::from("Failed to get a file name."))
    );
}

#[test]
fn refused_substitution_in_a_name_is_fatal() {
    assert_eq!(
        process_file_name(Some(b"a.txt"), "[", "b", true),
        NameStep::Fatal(String::from("\"[\" is not a valid regular expression."))
    );
    assert_eq!(
        process_file_name(Some(b"a.txt"), "", "b", false),
        NameStep::Fatal(String::from("The string to find is empty."))
    );
}

#[test]
fn name_outcome_follows_the_count() {
    assert_eq!(
        name_outcome(Ok((String::from("new"), 2))),
        NameStep::Rename(String::from("new"))
    );
    assert_eq!(name_outcome(Ok((String::from("same"), 0))), NameStep::Keep);
    assert_eq!(name_outcome(Err(String::from("no"))), NameStep::Fatal(String::from("no")));
}

#[test]
fn content_with_matches_is_rewritten() {
    assert_eq!(
        process_file_content("a.txt", b"foo foo foo", "foo", "bar", false),
        ContentStep::Rewrite(3, b"bar bar bar".to_vec())
    );
}

#[test]
fn content_without_a_match_is_kept() {
    assert_eq!(process_file_content("a.txt", b"foo foo foo", "baz", "bar", false), ContentStep::Keep);
}

#[test]
fn empty_file_is_kept() {
    assert_eq!(process_file_content("a.txt", b"", "foo", "bar", false), ContentStep::Keep);
    assert_eq!(process_file_content("a.txt", b"", "^", "bar", true), ContentStep::Keep);
}

#[test]
fn utf8_content_is_rewritten_in_utf8() {
    let before = "Grüße aus Köln, où est la bibliothèque, señor";
    let after = "Grüße aus Bonn, où est la bibliothèque, señor";
    assert_eq!(
        process_file_content("a.txt", before.as_bytes(), "Köln", "Bonn", false),
        ContentStep::Rewrite(1, after.as_bytes().to_vec())
    );
}

#[test]
fn utf8_content_rewritten_by_itself_keeps_its_bytes() {
    let text = "Grüße aus Köln, où est la bibliothèque, señor";
    assert_eq!(
        process_file_content("a.txt", text.as_bytes(), "ö", "ö", false),
        ContentStep::Rewrite(1, text.as_bytes().to_vec())
    );
}

#[test]
fn shift_jis_content_rewritten_by_itself_keeps_its_bytes() {
    let mut bytes: Vec<u8> = Vec::new();
    for _ in 0..40 {
        bytes.extend_from_slice(&[0x82, 0xb1, 0x82, 0xf1, 0x82, 0xc9, 0x82, 0xbf, 0x82, 0xcd]);
        bytes.extend_from_slice(&[0x81, 0x42, b'a']);
    }
    assert_eq!(
        process_file_content("a.txt", &bytes, "a", "a", false),
        ContentStep::Rewrite(40, bytes.clone())
    );
}

#[test]
fn characters_that_the_encoding_cannot_hold_are_dropped() {
    assert_eq!(
        process_file_content("a.txt", b"axb", "x", "\u{65e5}y", false),
        ContentStep::Rewrite(1, b"ayb".to_vec())
    );
}

#[test]
fn escaped_ascii_is_skipped() {
    assert_eq!(
        process_file_content("a.txt", b"\x1b[1mfoo\x1b[0m", "foo", "bar", false),
        ContentStep::Skip(String::from("Failed on detecting the encoding of \"a.txt\"."))
    );
}

#[test]
fn content_in_an_encoding_without_a_codec_is_skipped() {
    assert_eq!(
        process_file_content("a.bin", &[0, 0, 0xfe, 0xff, 0, 0, 0, 0x41], "A", "B", false),
        ContentStep::Skip(String::from("Failed on detecting the encoding of \"a.bin\"."))
    );
}

#[test]
fn refused_substitution_in_a_content_is_fatal() {
    assert_eq!(
        process_file_content("a.txt", b"text", "(", "b", true),
        ContentStep::Fatal(String::from("\"(\" is not a valid regular expression."))
    );
}

#[test]
fn content_outcome_follows_the_encoder() {
    assert_eq!(
        content_outcome("a.txt", 2, Some(Ok(vec![7, 8]))),
        ContentStep::Rewrite(2, vec![7, 8])
    );
    assert_eq!(
        content_outcome("a.txt", 2, Some(Err(String::from("no")))),
        ContentStep::Skip(String::from("Failed on re-encoding \"a.txt\":\nno"))
    );
    assert_eq!(
        content_outcome("a.txt", 2, None),
        ContentStep::Skip(String::from("Failed on detecting the encoding of \"a.txt\"."))
    );
}

#[test]
fn fresh_progress_holds_the_header() {
    let progress = Progress::new(unit("/d/a.txt", "a", "b", RenameMode::Both));
    assert_eq!(progress.stage, Stage::Fresh);
    assert_eq!(progress.output, "/d/a.txt:\n");
    assert!(!progress.modified);
    assert_eq!(progress.work, unit("/d/a.txt", "a", "b", RenameMode::Both));
}

#[test]
fn renaming_in_name_only_scope() {
    let mut progress = Progress::new(unit("/d/report_old.txt", "old", "new", RenameMode::NameOnly));
    assert_eq!(handle_work(&mut progress, Event::Begin), Action::FetchName);
    assert_eq!(
        handle_work(&mut progress, Event::Name(Some(b"report_old.txt".to_vec()))),
        Action::Rename(String::from("report_new.txt"))
    );
    assert_eq!(
        handle_work(&mut progress, Event::Renamed(String::from("/d/report_new.txt"))),
        Action::Inspect
    );
    assert_eq!(progress.work.path, "/d/report_new.txt");
    assert_eq!(
        handle_work(&mut progress, Event::Kind(true)),
        finished("/d/report_old.txt:\n   ·Renamed to \"/d/report_new.txt\".\n")
    );
    assert_eq!(progress.stage, Stage::Done);
}

#[test]
fn replacing_in_content_only_scope() {
    let mut progress = Progress::new(unit("/d/foo.txt", "foo", "bar", RenameMode::ContentOnly));
    assert_eq!(handle_work(&mut progress, Event::Begin), Action::Inspect);
    assert_eq!(handle_work(&mut progress, Event::Kind(true)), Action::Read);
    assert_eq!(
        handle_work(&mut progress, Event::Content(b"foo foo foo".to_vec())),
        Action::Write(b"bar bar bar".to_vec())
    );
    assert_eq!(progress.stage, Stage::Writing(3));
    assert_eq!(
        handle_work(&mut progress, Event::Written),
        finished("/d/foo.txt:\n   ·Replaced 3 matches.\n")
    );
    assert_eq!(progress.work.path, "/d/foo.txt");
}

#[test]
fn renaming_and_replacing_in_both() {
    let mut progress = Progress::new(unit("/d/foo.txt", "foo", "bar", RenameMode::Both));
    assert_eq!(handle_work(&mut progress, Event::Begin), Action::FetchName);
    assert_eq!(
        handle_work(&mut progress, Event::Name(Some(b"foo.txt".to_vec()))),
        Action::Rename(String::from("bar.txt"))
    );
    assert_eq!(
        handle_work(&mut progress, Event::Renamed(String::from("/d/bar.txt"))),
        Action::Inspect
    );
    assert_eq!(handle_work(&mut progress, Event::Kind(true)), Action::Read);
    assert_eq!(
        handle_work(&mut progress, Event::Content(b"a foo".to_vec())),
        Action::Write(b"a bar".to_vec())
    );
    assert_eq!(
        handle_work(&mut progress, Event::Written),
        finished("/d/foo.txt:\n   ·Renamed to \"/d/bar.txt\".\n   ·Replaced 1 matches.\n")
    );
}

#[test]
fn silence_prints_nothing_and_acts_alike() {
    let mut quiet = unit("/d/foo.txt", "foo", "bar", RenameMode::Both);
    quiet.silence = true;
    let mut progress = Progress::new(quiet);
    assert_eq!(handle_work(&mut progress, Event::Begin), Action::FetchName);
    assert_eq!(
        handle_work(&mut progress, Event::Name(Some(b"foo.txt".to_vec()))),
        Action::Rename(String::from("bar.txt"))
    );
    assert_eq!(
        handle_work(&mut progress, Event::Renamed(String::from("/d/bar.txt"))),
        Action::Inspect
    );
    assert_eq!(handle_work(&mut progress, Event::Kind(true)), Action::Read);
    assert_eq!(
        handle_work(&mut progress, Event::Content(b"foo foo foo".to_vec())),
        Action::Write(b"bar bar bar".to_vec())
    );
    assert_eq!(handle_work(&mut progress, Event::Written), Action::Finish(None, Vec::new()));
}

#[test]
fn nothing_changed_prints_nothing() {
    let mut progress = Progress::new(unit("/d/a.txt", "foo", "bar", RenameMode::Both));
    assert_eq!(handle_work(&mut progress, Event::Begin), Action::FetchName);
    assert_eq!(handle_work(&mut progress, Event::Name(Some(b"a.txt".to_vec()))), Action::Inspect);
    assert_eq!(handle_work(&mut progress, Event::Kind(true)), Action::Read);
    assert_eq!(
        handle_work(&mut progress, Event::Content(b"nothing".to_vec())),
        Action::Finish(None, Vec::new())
    );
}

#[test]
fn root_is_not_renamed() {
    let mut root = unit("/foo", "foo", "bar", RenameMode::Both);
    root.is_root = true;
    let mut progress = Progress::new(root);
    assert_eq!(handle_work(&mut progress, Event::Begin), Action::Inspect);
    assert_eq!(handle_work(&mut progress, Event::Kind(false)), Action::List);
    assert_eq!(
        handle_work(&mut progress, Event::Children(vec![String::from("/foo/foo.txt")])),
        Action::Finish(None, vec![unit("/foo/foo.txt", "foo", "bar", RenameMode::Both)])
    );
    assert_eq!(progress.work.path, "/foo");
}

#[test]
fn renamed_directory_is_listed_and_reported() {
    let mut progress = Progress::new(unit("/d/old", "old", "new", RenameMode::Both));
    assert_eq!(handle_work(&mut progress, Event::Begin), Action::FetchName);
    assert_eq!(
        handle_work(&mut progress, Event::Name(Some(b"old".to_vec()))),
        Action::Rename(String::from("new"))
    );
    assert_eq!(handle_work(&mut progress, Event::Renamed(String::from("/d/new"))), Action::Inspect);
    assert_eq!(handle_work(&mut progress, Event::Kind(false)), Action::List);
    assert_eq!(
        handle_work(
            &mut progress,
            Event::Children(vec![String::from("/d/new/a"), String::from("/d/new/b")])
        ),
        Action::Finish(
            Some(String::from("/d/old:\n   ·Renamed to \"/d/new\".\n")),
            vec![
                unit("/d/new/a", "old", "new", RenameMode::Both),
                unit("/d/new/b", "old", "new", RenameMode::Both)
            ]
        )
    );
}

#[test]
fn file_in_name_only_scope_is_not_read() {
    let mut progress = Progress::new(unit("/d/a", "x", "y", RenameMode::NameOnly));
    assert_eq!(handle_work(&mut progress, Event::Begin), Action::FetchName);
    assert_eq!(handle_work(&mut progress, Event::Name(Some(b"a".to_vec()))), Action::Inspect);
    assert_eq!(handle_work(&mut progress, Event::Kind(true)), Action::Finish(None, Vec::new()));
}

#[test]
fn refused_rename_is_reported_and_ends_the_entry() {
    let mut progress = Progress::new(unit("/d/old", "old", "new", RenameMode::Both));
    handle_work(&mut progress, Event::Begin);
    handle_work(&mut progress, Event::Name(Some(b"old".to_vec())));
    assert_eq!(
        handle_work(&mut progress, Event::RenameFailed(String::from("/d/new"))),
        finished("/d/old:\n   ·Failed on renaming \"/d/old\" to \"/d/new\"\n")
    );
    assert_eq!(progress.work.path, "/d/old");
    assert_eq!(progress.stage, Stage::Done);
}

#[test]
fn name_that_is_no_text_is_reported_and_ends_the_entry() {
    let mut progress = Progress::new(unit("/d/a?b", "a", "c", RenameMode::Both));
    handle_work(&mut progress, Event::Begin);
    assert_eq!(
        handle_work(&mut progress, Event::Name(Some(vec![b'a', 0xff, b'b']))),
        finished("/d/a?b:\n   ·File \"a\u{fffd}b\" has an invalid name.\n")
    );
}

#[test]
fn missing_name_is_reported_and_ends_the_entry() {
    let mut progress = Progress::new(unit("/d/..", "a", "c", RenameMode::Both));
    handle_work(&mut progress, Event::Begin);
    assert_eq!(
        handle_work(&mut progress, Event::Name(None)),
        finished("/d/..:\n   ·Failed to get a file name.\n")
    );
}

#[test]
fn pattern_that_does_not_compile_ends_the_sweep() {
    let mut work = unit("/d/a", "(", "c", RenameMode::Both);
    work.use_regex = true;
    let mut progress = Progress::new(work);
    handle_work(&mut progress, Event::Begin);
    assert_eq!(
        handle_work(&mut progress, Event::Name(Some(b"a".to_vec()))),
        Action::Abort(String::from("\"(\" is not a valid regular expression."))
    );
    let mut work = unit("/d/a", "(", "c", RenameMode::ContentOnly);
    work.use_regex = true;
    let mut progress = Progress::new(work);
    handle_work(&mut progress, Event::Begin);
    handle_work(&mut progress, Event::Kind(true));
    assert_eq!(
        handle_work(&mut progress, Event::Content(b"text".to_vec())),
        Action::Abort(String::from("\"(\" is not a valid regular expression."))
    );
}

#[test]
fn unknown_kind_ends_the_sweep() {
    let mut progress = Progress::new(unit("/d/a", "x", "y", RenameMode::ContentOnly));
    handle_work(&mut progress, Event::Begin);
    assert_eq!(
        handle_work(&mut progress, Event::KindFailed(String::from("no such file"))),
        Action::Abort(String::from("no such file"))
    );
}

#[test]
fn unlisted_directory_ends_the_sweep() {
    let mut progress = Progress::new(unit("/d", "x", "y", RenameMode::ContentOnly));
    handle_work(&mut progress, Event::Begin);
    handle_work(&mut progress, Event::Kind(false));
    assert_eq!(
        handle_work(&mut progress, Event::ListFailed(String::from("permission denied"))),
        Action::Abort(String::from("permission denied"))
    );
}

#[test]
fn unopened_file_is_reported() {
    let mut progress = Progress::new(unit("/d/a", "x", "y", RenameMode::ContentOnly));
    handle_work(&mut progress, Event::Begin);
    handle_work(&mut progress, Event::Kind(true));
    assert_eq!(
        handle_work(&mut progress, Event::OpenFailed(String::from("denied"))),
        finished(
            "/d/a:\nFailed on openning \"/d/a\":\ndenied   ·Not a regular text file, skipped.\n"
        )
    );
}

#[test]
fn unread_file_is_reported() {
    let mut progress = Progress::new(unit("/d/a", "x", "y", RenameMode::ContentOnly));
    handle_work(&mut progress, Event::Begin);
    handle_work(&mut progress, Event::Kind(true));
    assert_eq!(
        handle_work(&mut progress, Event::ReadFailed(String::from("denied"))),
        finished(
            "/d/a:\nFailed on reading \"/d/a\":\ndenied   ·Not a regular text file, skipped.\n"
        )
    );
}

#[test]
fn unwritten_file_is_reported() {
    let mut progress = Progress::new(unit("/d/a", "x", "y", RenameMode::ContentOnly));
    handle_work(&mut progress, Event::Begin);
    handle_work(&mut progress, Event::Kind(true));
    assert_eq!(handle_work(&mut progress, Event::Content(b"x".to_vec())), Action::Write(b"y".to_vec()));
    assert_eq!(
        handle_work(&mut progress, Event::WriteFailed),
        finished("/d/a:\nFailed on writing \"/d/a\".   ·Not a regular text file, skipped.\n")
    );
}

#[test]
fn undecodable_file_is_reported() {
    let mut progress = Progress::new(unit("/d/a", "x", "y", RenameMode::ContentOnly));
    handle_work(&mut progress, Event::Begin);
    handle_work(&mut progress, Event::Kind(true));
    assert_eq!(
        handle_work(&mut progress, Event::Content(b"\x1b[1mx".to_vec())),
        finished(
            "/d/a:\nFailed on detecting the encoding of \"/d/a\".   ·Not a regular text file, skipped.\n"
        )
    );
}

#[test]
fn answer_out_of_turn_ends_the_sweep() {
    let out_of_turn = Action::Abort(String::from("An answer came that no question asked for."));
    let mut progress = Progress::new(unit("/d/a", "x", "y", RenameMode::Both));
    assert_eq!(handle_work(&mut progress, Event::Kind(true)), out_of_turn);
    assert_eq!(progress.stage, Stage::Done);
    assert_eq!(handle_work(&mut progress, Event::Begin), out_of_turn);
    let mut progress = Progress::new(unit("/d/a", "x", "y", RenameMode::Both));
    handle_work(&mut progress, Event::Begin);
    assert_eq!(handle_work(&mut progress, Event::Written), out_of_turn);
}
