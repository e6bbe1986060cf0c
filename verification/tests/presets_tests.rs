use document_encoder::presets::{
    contains_default, contains_id, default_presets, ensure_defaults, manual_preset,
    merge_imported, parse_prompt_presets_xml, presets_to_xml, restore_defaults,
    specification_preset, unique_id, MANUAL_ID, SPECIFICATION_ID,
};
use document_encoder::types::PromptPreset;

fn preset(id: &str, name: &str, prompt: &str, is_default: bool) -> PromptPreset {
    PromptPreset {
        id: id.to_string(),
        name: name.to_string(),
        prompt: prompt.to_string(),
        is_default,
    }
}

fn plain(presets: &[PromptPreset]) -> Vec<(String, String, String, bool)> {
    presets
        .iter()
        .map(|p| (p.id.clone(), p.name.clone(), p.prompt.clone(), p.is_default))
        .collect()
}

fn ids(presets: &[PromptPreset]) -> Vec<String> {
    presets.iter().map(|p| p.id.clone()).collect()
}

#[test]
fn the_defaults_are_the_manual_and_the_specification() {
    let presets = default_presets();
    assert_eq!(presets.len(), 2);
    assert_eq!(presets[0].id, "default_manual");
    assert_eq!(presets[0].name, "デフォルト（マニュアル）");
    assert_eq!(presets[0].prompt, "この動画の内容を詳細に分析し、ユーザーマニュアルとして構成してください。操作手順、注意点、トラブルシューティングを含めて説明してください。");
    assert!(presets[0].is_default);
    assert_eq!(presets[1].id, "default_specification");
    assert_eq!(presets[1].name, "デフォルト（仕様書）");
    assert_eq!(presets[1].prompt, "この動画の内容を技術仕様書として構成してください。システムの概要、機能詳細、API仕様、データ構造を含めて説明してください。");
    assert!(presets[1].is_default);
    assert_eq!(MANUAL_ID, "default_manual");
    assert_eq!(SPECIFICATION_ID, "default_specification");
}

#[test]
fn saving_adds_missing_defaults_at_the_end() {
    let own = preset("mine", "Mine", "Do it.", false);
    let out = ensure_defaults(vec![own.clone()]);
    assert_eq!(ids(&out), vec!["mine", "default_manual", "default_specification"]);
    let out = ensure_defaults(vec![specification_preset(), own.clone()]);
    assert_eq!(ids(&out), vec!["default_specification", "mine", "default_manual"]);
    let out = ensure_defaults(default_presets());
    assert_eq!(plain(&out), plain(&default_presets()));
    let unmarked = preset("default_manual", "M", "P", false);
    let out = ensure_defaults(vec![unmarked, specification_preset()]);
    assert_eq!(ids(&out), vec!["default_manual", "default_specification", "default_manual"]);
    assert!(!out[0].is_default);
}

#[test]
fn loading_marks_reserved_ids_and_adds_missing_defaults() {
    let unmarked = preset("default_manual", "M", "P", false);
    let own = preset("mine", "Mine", "Do it.", true);
    let (out, changed) = restore_defaults(vec![unmarked, own]);
    assert!(changed);
    assert_eq!(
        plain(&out),
        vec![
            ("default_manual".to_string(), "M".to_string(), "P".to_string(), true),
            ("mine".to_string(), "Mine".to_string(), "Do it.".to_string(), true),
            plain(&[specification_preset()])[0].clone(),
        ]
    );
    let (again, changed_again) = restore_defaults(out.clone());
    assert!(!changed_again);
    assert_eq!(plain(&again), plain(&out));
    let (from_nothing, changed) = restore_defaults(vec![]);
    assert!(changed);
    assert_eq!(plain(&from_nothing), plain(&default_presets()));
    let (kept, changed) = restore_defaults(default_presets());
    assert!(!changed);
    assert_eq!(plain(&kept), plain(&default_presets()));
}

#[test]
fn presets_are_stored_as_xml() {
    let presets = vec![preset("a", "Name A", "Prompt <A>", true), preset("b", "名前", "二行\n目", false)];
    let mut expected = String::new();
    expected.push_str("<?xml version=\"1.0\" encoding=\"UTF-8\"?>\n");
    expected.push_str("<prompt_presets>\n");
    for p in &presets {
        expected.push_str(&format!(
            "  <preset id=\"{}\" is_default=\"{}\">\n    <name>{}</name>\n    <prompt><![CDATA[{}]]></prompt>\n  </preset>\n",
            p.id, p.is_default, p.name, p.prompt
        ));
    }
    expected.push_str("</prompt_presets>\n");
    assert_eq!(presets_to_xml(&presets), expected);
    assert_eq!(
        presets_to_xml(&[]),
        "<?xml version=\"1.0\" encoding=\"UTF-8\"?>\n<prompt_presets>\n</prompt_presets>\n"
    );
}

#[test]
fn stored_presets_are_read_back() {
    let presets = vec![
        preset("a", "Name A", "Prompt <A>", true),
        preset("b", "名前", "二行\n目", false),
        manual_preset(),
    ];
    let read = parse_prompt_presets_xml(&presets_to_xml(&presets)).unwrap();
    assert_eq!(plain(&read), plain(&presets));
}

#[test]
fn text_without_presets_gives_none() {
    assert!(parse_prompt_presets_xml("").unwrap().is_empty());
    assert!(parse_prompt_presets_xml("<prompt_presets>\n</prompt_presets>\n").unwrap().is_empty());
    assert!(parse_prompt_presets_xml("<preset id=\"a").unwrap().is_empty());
    assert!(parse_prompt_presets_xml("<preset id=\"a\"><name>n</name>").unwrap().is_empty());
    assert!(parse_prompt_presets_xml("<preset id=\"a\"><![CDATA[p]]>").unwrap().is_empty());
    assert!(parse_prompt_presets_xml("<preset id=\"a\"><name>n<![CDATA[p]]>").unwrap().is_empty());
}

#[test]
fn a_preset_without_flag_is_no_default() {
    let read = parse_prompt_presets_xml("<preset id=\"a\"><name>n</name><![CDATA[p]]>").unwrap();
    assert_eq!(plain(&read), vec![("a".to_string(), "n".to_string(), "p".to_string(), false)]);
    let read = parse_prompt_presets_xml("<preset id=\"a\" is_default=\"TRUE\"><name>n</name><![CDATA[p]]>").unwrap();
    assert!(!read[0].is_default);
    let read = parse_prompt_presets_xml("<preset id=\"a\" is_default=\"true\"><name></name><![CDATA[]]>").unwrap();
    assert_eq!(plain(&read), vec![("a".to_string(), "".to_string(), "".to_string(), true)]);
}

#[test]
fn a_broken_preset_borrows_from_the_next() {
    let xml = "<preset id=\"a\">\n<preset id=\"b\" is_default=\"true\"><name>n</name><![CDATA[p]]>";
    let read = parse_prompt_presets_xml(xml).unwrap();
    assert_eq!(
        plain(&read),
        vec![
            ("a".to_string(), "n".to_string(), "p".to_string(), true),
            ("b".to_string(), "n".to_string(), "p".to_string(), true),
        ]
    );
}

#[test]
fn imported_presets_get_free_ids_and_are_no_defaults() {
    let existing = vec![manual_preset(), preset("a", "A", "pa", false), preset("a_1", "A1", "pa1", false)];
    let imported = vec![
        preset("a", "New A", "x", true),
        preset("a", "Newer A", "y", false),
        preset("default_manual", "M", "m", true),
        preset("fresh", "F", "f", true),
    ];
    let all = merge_imported(existing.clone(), &imported);
    assert_eq!(ids(&all), vec!["default_manual", "a", "a_1", "a_2", "a_3", "default_manual_1", "fresh"]);
    assert_eq!(plain(&all[..3]), plain(&existing));
    for p in &all[3..] {
        assert!(!p.is_default);
    }
    assert_eq!(all[3].name, "New A");
    assert_eq!(all[6].prompt, "f");
    let mut sorted = ids(&all);
    sorted.sort();
    sorted.dedup();
    assert_eq!(sorted.len(), all.len());
}

#[test]
fn unique_id_tries_numbered_candidates_in_order() {
    let existing = vec![preset("a", "", "", false), preset("a_2", "", "", false), preset("a_1", "", "", false)];
    assert_eq!(unique_id(&existing, "a"), "a_3");
    assert_eq!(unique_id(&existing, "b"), "b");
    assert_eq!(unique_id(&existing, "a_1"), "a_1_1");
    assert_eq!(unique_id(&[], "a"), "a");
    let many: Vec<PromptPreset> = (0..12).map(|k| if k == 0 { preset("p", "", "", false) } else { preset(&format!("p_{}", k), "", "", false) }).collect();
    assert_eq!(unique_id(&many, "p"), "p_12");
}

#[test]
fn lookups_by_id_are_exact() {
    let presets = vec![preset("default_manual", "", "", false), preset("x", "", "", true)];
    assert!(contains_id(&presets, "default_manual"));
    assert!(!contains_id(&presets, "default_manua"));
    assert!(!contains_default(&presets, "default_manual"));
    assert!(contains_default(&presets, "x"));
}
