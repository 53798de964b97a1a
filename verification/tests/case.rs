use shema::utils::{
    push_case_converted, push_first_converted, to_lower_case_by_sep, CaseStatus,
};

#[test]
fn converts_camel_case_to_snake_case() {
    assert_eq!(to_lower_case_by_sep("ClientID", '_'), "client_id");
    assert_eq!(to_lower_case_by_sep("HTTPServer", '_'), "http_server");
    assert_eq!(to_lower_case_by_sep("already_snake", '_'), "already_snake");
    assert_eq!(to_lower_case_by_sep("AnalyticsEvent", '_'), "analytics_event");
    assert_eq!(to_lower_case_by_sep("Analytics", '_'), "analytics");
}

#[test]
fn last_capital_of_a_run_starts_the_next_word() {
    assert_eq!(to_lower_case_by_sep("XCoord", '_'), "x_coord");
    assert_eq!(to_lower_case_by_sep("IOError", '_'), "io_error");
    assert_eq!(to_lower_case_by_sep("ABCd", '_'), "ab_cd");
    assert_eq!(to_lower_case_by_sep("getHTTPResponse", '_'), "get_http_response");
}

#[test]
fn a_run_of_capitals_at_the_end_stays_together() {
    assert_eq!(to_lower_case_by_sep("userID", '_'), "user_id");
    assert_eq!(to_lower_case_by_sep("ID", '_'), "id");
    assert_eq!(to_lower_case_by_sep("A", '_'), "a");
}

#[test]
fn names_never_gain_a_leading_or_doubled_separator() {
    assert_eq!(to_lower_case_by_sep("Event", '_'), "event");
    assert_eq!(to_lower_case_by_sep("a_B", '_'), "a_b");
    assert_eq!(to_lower_case_by_sep("a_BC", '_'), "a_bc");
    assert_eq!(to_lower_case_by_sep("my_HTTPServer", '_'), "my_http_server");
}

#[test]
fn a_separator_after_a_run_of_capitals_splits_the_run() {
    assert_eq!(to_lower_case_by_sep("AB_c", '_'), "a_b_c");
}

#[test]
fn a_leading_separator_is_not_doubled() {
    assert_eq!(to_lower_case_by_sep("_A", '_'), "_a");
    assert_eq!(to_lower_case_by_sep("_Abc", '_'), "_abc");
    assert_eq!(to_lower_case_by_sep("__Abc", '_'), "__abc");
    assert_eq!(to_lower_case_by_sep("-Abc", '-'), "-abc");
    assert_eq!(to_lower_case_by_sep("-Abc", '_'), "-_abc");
}

#[test]
fn empty_and_single_characters() {
    assert_eq!(to_lower_case_by_sep("", '_'), "");
    assert_eq!(to_lower_case_by_sep("x", '_'), "x");
    assert_eq!(to_lower_case_by_sep("_", '_'), "_");
    assert_eq!(to_lower_case_by_sep("7", '_'), "7");
}

#[test]
fn digits_are_not_upper_case() {
    assert_eq!(to_lower_case_by_sep("Int96Column", '_'), "int96_column");
    assert_eq!(to_lower_case_by_sep("HTTP2Server", '_'), "htt_p2_server");
}

#[test]
fn another_separator() {
    assert_eq!(to_lower_case_by_sep("ClientID", '-'), "client-id");
    assert_eq!(to_lower_case_by_sep("client_Id", '-'), "client_-id");
}

#[test]
fn characters_beyond_ascii() {
    assert_eq!(to_lower_case_by_sep("ÄrgerÜber", '_'), "ärger_über");
    assert_eq!(to_lower_case_by_sep("ΑβΓδ", '_'), "αβ_γδ");
}

#[test]
fn lowercase_mapping_may_be_more_than_one_character() {
    assert_eq!(to_lower_case_by_sep("aİb", '_'), "a_i\u{307}b");
    assert_eq!(to_lower_case_by_sep("İİx", '_'), "i\u{307}i_\u{307}x");
}

#[test]
fn converting_twice_changes_nothing() {
    for name in [
        "ClientID",
        "HTTPServer",
        "already_snake",
        "XCoord",
        "AB_c",
        "_Abc",
        "getHTTPResponse",
        "ÄrgerÜber",
        "aİb",
        "",
    ] {
        let once = to_lower_case_by_sep(name, '_');
        assert_eq!(to_lower_case_by_sep(&once, '_'), once, "{}", name);
    }
}

#[test]
fn text_without_capitals_is_left_as_it_is() {
    for name in ["already_snake", "a__b", "_", "x1_y2", "ärger", "__"] {
        assert_eq!(to_lower_case_by_sep(name, '_'), name);
        assert_eq!(to_lower_case_by_sep(name, '-'), name);
    }
}

#[test]
fn a_capital_without_lowercase_mapping_breaks_idempotence() {
    let bold = "\u{1D400}";
    let name = format!("{0}{0}{0}a", bold);
    let once = to_lower_case_by_sep(&name, '_');
    assert_eq!(once, format!("{0}{0}_{0}a", bold));
    let twice = to_lower_case_by_sep(&once, '_');
    assert_eq!(twice, format!("{0}_{0}_{0}a", bold));
}

#[test]
fn an_upper_case_separator_breaks_idempotence() {
    let once = to_lower_case_by_sep("aB", 'X');
    assert_eq!(once, "aXb");
    assert_eq!(to_lower_case_by_sep(&once, 'X'), "aXxb");
}

#[test]
fn first_character_is_written_without_separator() {
    let mut output = String::new();
    assert_eq!(push_first_converted(&mut output, 'Q', true, "q", '_'), CaseStatus::PrevUpper);
    assert_eq!(output, "q");
    let mut output = "x".to_owned();
    assert_eq!(push_first_converted(&mut output, 'q', false, "", '_'), CaseStatus::PrevLower);
    assert_eq!(output, "xq");
}

#[test]
fn first_character_that_is_the_separator_sets_the_separator_status() {
    let mut output = String::new();
    assert_eq!(push_first_converted(&mut output, '_', false, "", '_'), CaseStatus::PrevSep);
    assert_eq!(output, "_");
    let mut output = String::new();
    assert_eq!(push_first_converted(&mut output, '_', false, "", '-'), CaseStatus::PrevLower);
    assert_eq!(output, "_");
    let status = push_first_converted(&mut String::new(), '_', false, "", '_');
    let mut output = "_".to_owned();
    assert_eq!(push_case_converted(&mut output, status, 'A', true, "a", '_'), CaseStatus::PrevUpper);
    assert_eq!(output, "_a");
}

#[test]
fn ascii_capitals_have_lower_case_mappings_without_capitals() {
    for code in 0u8..128 {
        let ch = code as char;
        assert_eq!(ch.is_uppercase(), ch.is_ascii_uppercase(), "{:?}", ch);
        if ch.is_uppercase() {
            let lowered: Vec<char> = ch.to_lowercase().collect();
            assert_eq!(lowered, [ch.to_ascii_lowercase()]);
            assert!(lowered.iter().all(|lower| !lower.is_uppercase()));
        }
    }
}

#[test]
fn converting_twice_changes_no_short_ascii_identifier() {
    let alphabet: Vec<char> = ('a'..='z').chain('A'..='Z').chain('0'..='9').chain(['_']).collect();
    let mut names = vec![String::new()];
    for _ in 0..3 {
        let mut longer = Vec::new();
        for name in &names {
            for ch in &alphabet {
                let mut next = name.clone();
                next.push(*ch);
                longer.push(next);
            }
        }
        for name in &longer {
            let once = to_lower_case_by_sep(name, '_');
            assert_eq!(to_lower_case_by_sep(&once, '_'), once, "{}", name);
        }
        names = longer;
    }
}

#[test]
fn step_on_an_upper_case_character() {
    let cases = [
        (CaseStatus::PrevLower, "ab_c", CaseStatus::PrevUpper),
        (CaseStatus::PrevSep, "abc", CaseStatus::PrevUpper),
        (CaseStatus::PrevUpper, "abc", CaseStatus::RepeatUpper),
        (CaseStatus::RepeatUpper, "abc", CaseStatus::RepeatUpper),
    ];
    for (status, expected, next) in cases {
        let mut output = "ab".to_owned();
        assert_eq!(push_case_converted(&mut output, status, 'C', true, "c", '_'), next);
        assert_eq!(output, expected);
    }
}

#[test]
fn step_on_another_character() {
    let cases = [
        (CaseStatus::PrevLower, 'c', "abc", CaseStatus::PrevLower),
        (CaseStatus::PrevSep, 'c', "abc", CaseStatus::PrevLower),
        (CaseStatus::PrevUpper, 'c', "abc", CaseStatus::PrevLower),
        (CaseStatus::RepeatUpper, 'c', "a_bc", CaseStatus::PrevLower),
        (CaseStatus::PrevLower, '_', "ab_", CaseStatus::PrevSep),
        (CaseStatus::RepeatUpper, '_', "a_b_", CaseStatus::PrevSep),
    ];
    for (status, ch, expected, next) in cases {
        let mut output = "ab".to_owned();
        assert_eq!(push_case_converted(&mut output, status, ch, false, "", '_'), next);
        assert_eq!(output, expected);
    }
}

#[test]
fn step_after_a_run_of_capitals_on_an_empty_output() {
    let mut output = String::new();
    let next = push_case_converted(&mut output, CaseStatus::RepeatUpper, 'c', false, "", '_');
    assert_eq!(next, CaseStatus::PrevLower);
    assert_eq!(output, "c");
}
