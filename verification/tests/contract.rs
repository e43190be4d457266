use slint_agent_desktop::contract::{
    assemble_contract, collect_agent_ids, parse_actions, quoted_value, reject_duplicates,
    scan_agent_contract, split_lines, AgentContract, AgentContractEntry, AgentDeclarationKind,
    ScannedFile,
};

fn entry(id: &str, path: &str, line: usize) -> AgentContractEntry {
    AgentContractEntry {
        id: id.into(),
        role: "button".into(),
        actions: vec!["click".into()],
        path: path.into(),
        line,
        kind: AgentDeclarationKind::Property,
    }
}

#[test]
fn scans_structured_properties_and_comment_markers() {
    let source = r#"
            // agent-id: "help.about"
            // agent-role: "menuitem"
            // agent-actions: "click"
            agent-id: "main.input";
            agent-role: "textbox";
            agent-actions: "get_value,set_value,focus";
            other-agent-id: "ignored";
        "#;
    let entries = scan_agent_contract(source).unwrap();
    assert_eq!(entries.len(), 2);
    assert_eq!(entries[0].id, "help.about");
    assert_eq!(entries[0].kind, AgentDeclarationKind::CommentMarker);
    assert_eq!(entries[0].actions, ["click"]);
    assert_eq!(entries[1].id, "main.input");
    assert_eq!(entries[1].role, "textbox");
    assert_eq!(entries[1].actions, ["get_value", "set_value", "focus"]);
}

#[test]
fn rejects_ids_without_metadata() {
    let error = scan_agent_contract(r#"agent-id: "main.input";"#).unwrap_err();
    assert!(error.contains("has no agent-role"));
}

#[test]
fn rejects_duplicate_concrete_ids_with_locations() {
    let entry = |path: &str, line| AgentContractEntry {
        id: "main.submit".into(),
        role: "button".into(),
        actions: vec!["click".into()],
        path: path.into(),
        line,
        kind: AgentDeclarationKind::Property,
    };
    let error = reject_duplicates(&vec![
        entry("ui/first.slint", 10),
        entry("ui/second.slint", 20),
    ])
    .unwrap_err();
    assert!(error.contains("duplicate agent-id \"main.submit\""));
    assert!(error.contains("ui/first.slint:10"));
    assert!(error.contains("ui/second.slint:20"));
}

#[test]
fn scanned_entries_record_their_line_numbers() {
    let source = "\nagent-id: \"a\";\nagent-role: \"button\";\nagent-actions: \"click\";\n";
    let entries = scan_agent_contract(source).unwrap();
    assert_eq!(entries.len(), 1);
    assert_eq!(entries[0].line, 2);
    assert_eq!(entries[0].kind, AgentDeclarationKind::Property);
    assert_eq!(entries[0].path, "");
}

#[test]
fn ids_without_actions_are_rejected_with_their_line() {
    let error = scan_agent_contract("agent-id: \"x\";\nagent-role: \"button\";").unwrap_err();
    assert_eq!(error, "agent-id \"x\" at line 1 has no agent-actions");
}

#[test]
fn empty_ids_and_metadata_after_other_lines_are_ignored() {
    let source = "agent-id: \"\";\nagent-id: \"b\";\nwidth: 10px;\nagent-role: \"x\";";
    let error = scan_agent_contract(source).unwrap_err();
    assert_eq!(error, "agent-id \"b\" at line 2 has no agent-role");
}

#[test]
fn lines_quotes_and_action_lists_are_split_like_str_lines() {
    assert_eq!(split_lines("a\r\nb\n\nc\n"), ["a", "b", "", "c"]);
    assert!(split_lines("").is_empty());
    assert_eq!(quoted_value("agent-id:  \"x.y\";", "agent-id:").as_deref(), Some("x.y"));
    assert_eq!(quoted_value("agent-id: x", "agent-id:"), None);
    assert_eq!(quoted_value("agent-id: \"open", "agent-id:"), None);
    assert_eq!(parse_actions("click,,focus,"), ["click", "focus"]);
}

#[test]
fn duplicate_reports_are_sorted_by_identifier() {
    let error = reject_duplicates(&vec![
        entry("z", "b.slint", 1),
        entry("a", "b.slint", 2),
        entry("z", "c.slint", 3),
        entry("a", "d.slint", 4),
        entry("m", "e.slint", 5),
    ])
    .unwrap_err();
    assert_eq!(
        error,
        "duplicate agent-id \"a\": b.slint:2, d.slint:4\nduplicate agent-id \"z\": b.slint:1, c.slint:3"
    );
    assert!(reject_duplicates(&vec![entry("a", "x", 1), entry("b", "x", 1)]).is_ok());
}

#[test]
fn assembled_contracts_are_sorted_and_carry_file_paths() {
    let files = vec![
        ScannedFile {
            path: "ui/b.slint".into(),
            entries: vec![entry("zeta", "", 3)],
        },
        ScannedFile {
            path: "ui/a.slint".into(),
            entries: vec![entry("alpha", "", 7), entry("mid", "", 9)],
        },
    ];
    let contract = assemble_contract(files).unwrap();
    let ids: Vec<&str> = contract.elements.iter().map(|e| e.id.as_str()).collect();
    assert_eq!(ids, ["alpha", "mid", "zeta"]);
    assert_eq!(contract.elements[0].path, "ui/a.slint");
    assert_eq!(contract.elements[2].path, "ui/b.slint");
    assert_eq!(contract.elements[2].line, 3);

    let clash = vec![
        ScannedFile {
            path: "one.slint".into(),
            entries: vec![entry("same", "", 1)],
        },
        ScannedFile {
            path: "two.slint".into(),
            entries: vec![entry("same", "", 2)],
        },
    ];
    assert_eq!(
        assemble_contract(clash).unwrap_err(),
        "duplicate agent-id \"same\": one.slint:1, two.slint:2"
    );
}

#[test]
fn agent_ids_are_grouped_in_ascending_order() {
    let contract = AgentContract {
        elements: vec![
            entry("b", "x.slint", 1),
            entry("a", "y.slint", 2),
            entry("b", "z.slint", 3),
        ],
    };
    let groups = collect_agent_ids(&contract);
    assert_eq!(groups.len(), 2);
    assert_eq!(groups[0].id, "a");
    assert_eq!(groups[0].locations.len(), 1);
    assert_eq!(groups[0].locations[0].path, "y.slint");
    assert_eq!(groups[1].id, "b");
    assert_eq!(groups[1].locations.len(), 2);
    assert_eq!(groups[1].locations[0].line, 1);
    assert_eq!(groups[1].locations[1].line, 3);
}
