//! The prompt presets: the two that are always there, and the text form in
//! which presets are stored.

use crate::text::{
    chars_of, decimal, decimal_text, find_from, first_occurrence, lemma_decimal_text_injective,
    same_text, text_between,
};
use crate::types::{PresetModel, PromptPreset};
use vstd::prelude::*;

verus! {

/// The id of the preset that asks for a user manual.
pub const MANUAL_ID: &'static str = "default_manual";

/// The name of the preset that asks for a user manual.
pub const MANUAL_NAME: &'static str = "デフォルト（マニュアル）";

/// The prompt of the preset that asks for a user manual.
pub const MANUAL_PROMPT: &'static str = "この動画の内容を詳細に分析し、ユーザーマニュアルとして構成してください。操作手順、注意点、トラブルシューティングを含めて説明してください。";

/// The id of the preset that asks for a technical specification.
pub const SPECIFICATION_ID: &'static str = "default_specification";

/// The name of the preset that asks for a technical specification.
pub const SPECIFICATION_NAME: &'static str = "デフォルト（仕様書）";

/// The prompt of the preset that asks for a technical specification.
pub const SPECIFICATION_PROMPT: &'static str = "この動画の内容を技術仕様書として構成してください。システムの概要、機能詳細、API仕様、データ構造を含めて説明してください。";

/// What opens the stored form of a list of presets.
pub const XML_HEAD: &'static str = "<?xml version=\"1.0\" encoding=\"UTF-8\"?>\n<prompt_presets>\n";

/// What closes the stored form of a list of presets.
pub const XML_TAIL: &'static str = "</prompt_presets>\n";

/// What opens the stored form of a preset, up to its id.
pub const PRESET_OPEN: &'static str = "<preset id=\"";

/// What precedes the flag of a stored preset.
pub const FLAG_OPEN: &'static str = "is_default=\"";

/// What precedes the name of a stored preset.
pub const NAME_OPEN: &'static str = "<name>";

/// What follows the name of a stored preset.
pub const NAME_CLOSE: &'static str = "</name>";

/// What precedes the prompt of a stored preset.
pub const PROMPT_OPEN: &'static str = "<![CDATA[";

/// What follows the prompt of a stored preset.
pub const PROMPT_CLOSE: &'static str = "]]>";

/// The preset that asks for a user manual.
pub open spec fn manual_model() -> PresetModel {
    PresetModel { id: MANUAL_ID@, name: MANUAL_NAME@, prompt: MANUAL_PROMPT@, is_default: true }
}

/// The preset that asks for a technical specification.
pub open spec fn specification_model() -> PresetModel {
    PresetModel {
        id: SPECIFICATION_ID@,
        name: SPECIFICATION_NAME@,
        prompt: SPECIFICATION_PROMPT@,
        is_default: true,
    }
}

/// The preset that asks for a user manual.
pub fn manual_preset() -> (r: PromptPreset)
    ensures
        r.deep_view() == manual_model(),
{
    PromptPreset {
        id: String::from_str(MANUAL_ID),
        name: String::from_str(MANUAL_NAME),
        prompt: String::from_str(MANUAL_PROMPT),
        is_default: true,
    }
}

/// The preset that asks for a technical specification.
pub fn specification_preset() -> (r: PromptPreset)
    ensures
        r.deep_view() == specification_model(),
{
    PromptPreset {
        id: String::from_str(SPECIFICATION_ID),
        name: String::from_str(SPECIFICATION_NAME),
        prompt: String::from_str(SPECIFICATION_PROMPT),
        is_default: true,
    }
}

/// The presets of a user who has stored none.
pub fn default_presets() -> (r: Vec<PromptPreset>)
    ensures
        r.deep_view() == seq![manual_model(), specification_model()],
{
    let mut presets: Vec<PromptPreset> = Vec::new();
    presets.push(manual_preset());
    presets.push(specification_preset());
    assert(presets.deep_view() =~= seq![manual_model(), specification_model()]);
    presets
}

/// Whether `id` is the id of one of the two presets that are always there.
pub open spec fn is_reserved(id: Seq<char>) -> bool {
    id == MANUAL_ID@ || id == SPECIFICATION_ID@
}

/// Whether `presets` holds a preset with this id that is marked as a
/// default.
pub open spec fn has_default(presets: Seq<PresetModel>, id: Seq<char>) -> bool {
    exists|i: int| 0 <= i < presets.len() && presets[i].id == id && #[trigger] presets[i].is_default
}

/// Whether some preset of `presets` has a reserved id and is not marked as a
/// default.
pub open spec fn has_unmarked(presets: Seq<PresetModel>) -> bool {
    exists|i: int|
        0 <= i < presets.len() && is_reserved(presets[i].id) && !#[trigger] presets[i].is_default
}

/// The preset, marked as a default where its id is reserved.
pub open spec fn marked(preset: PresetModel) -> PresetModel {
    if is_reserved(preset.id) {
        PresetModel { is_default: true, ..preset }
    } else {
        preset
    }
}

/// The presets, followed by each of the two defaults that is not among
/// them: the manual first.
pub open spec fn with_defaults(presets: Seq<PresetModel>) -> Seq<PresetModel> {
    let first = if has_default(presets, MANUAL_ID@) {
        presets
    } else {
        presets.push(manual_model())
    };
    if has_default(presets, SPECIFICATION_ID@) {
        first
    } else {
        first.push(specification_model())
    }
}

/// The presets as they are after loading: each one with a reserved id is
/// marked, and each default that is missing is added.
pub open spec fn restored(presets: Seq<PresetModel>) -> Seq<PresetModel> {
    with_defaults(presets.map_values(|p: PresetModel| marked(p)))
}

/// Whether loading changes `presets`, so that they have to be stored again.
pub open spec fn needs_storing(presets: Seq<PresetModel>) -> bool {
    let fixed = presets.map_values(|p: PresetModel| marked(p));
    has_unmarked(presets) || !has_default(fixed, MANUAL_ID@) || !has_default(
        fixed,
        SPECIFICATION_ID@,
    )
}

/// Whether `presets` holds a preset with this id that is marked as a
/// default.
pub fn contains_default(presets: &[PromptPreset], id: &str) -> (r: bool)
    ensures
        r == has_default(presets.deep_view(), id@),
{
    let mut i: usize = 0;
    while i < presets.len()
        invariant
            i <= presets.len(),
            forall|j: int|
                0 <= j < i ==> !(presets.deep_view()[j].id == id@
                    && #[trigger] presets.deep_view()[j].is_default),
        decreases presets.len() - i,
    {
        if same_text(presets[i].id.as_str(), id) && presets[i].is_default {
            assert(presets.deep_view()[i as int].id == id@ && presets.deep_view()[i as int].is_default);
            return true;
        }
        i += 1;
    }
    false
}

/// Adds each of the two defaults that is not among `presets`, the manual
/// first. This is what is stored when the user saves presets.
pub fn ensure_defaults(presets: Vec<PromptPreset>) -> (r: Vec<PromptPreset>)
    ensures
        r.deep_view() == with_defaults(presets.deep_view()),
{
    let has_manual = contains_default(presets.as_slice(), MANUAL_ID);
    let has_specification = contains_default(presets.as_slice(), SPECIFICATION_ID);
    let mut out = presets;
    if !has_manual {
        let ghost before = out.deep_view();
        out.push(manual_preset());
        assert(out.deep_view() =~= before.push(manual_model()));
    }
    if !has_specification {
        let ghost before = out.deep_view();
        out.push(specification_preset());
        assert(out.deep_view() =~= before.push(specification_model()));
    }
    out
}

/// Puts loaded presets in order: each one with a reserved id is marked as a
/// default, and each default that is missing is added. The flag says
/// whether anything changed.
pub fn restore_defaults(presets: Vec<PromptPreset>) -> (r: (Vec<PromptPreset>, bool))
    ensures
        r.0.deep_view() == restored(presets.deep_view()),
        r.1 == needs_storing(presets.deep_view()),
{
    let ghost given = presets.deep_view();
    let ghost fixed = given.map_values(|p: PresetModel| marked(p));
    let mut out = presets;
    let mut changed = false;
    let mut i: usize = 0;
    while i < out.len()
        invariant
            i <= out.len(),
            out.len() == given.len(),
            fixed == given.map_values(|p: PresetModel| marked(p)),
            forall|j: int| 0 <= j < i ==> out.deep_view()[j] == fixed[j],
            forall|j: int| i <= j < out.len() ==> out.deep_view()[j] == given[j],
            changed == exists|j: int|
                0 <= j < i && is_reserved(given[j].id) && !#[trigger] given[j].is_default,
        decreases out.len() - i,
    {
        let reserved = same_text(out[i].id.as_str(), MANUAL_ID) || same_text(
            out[i].id.as_str(),
            SPECIFICATION_ID,
        );
        let ghost before = out.deep_view();
        if reserved && !out[i].is_default {
            let old_preset = &out[i];
            let fresh = PromptPreset {
                id: old_preset.id.clone(),
                name: old_preset.name.clone(),
                prompt: old_preset.prompt.clone(),
                is_default: true,
            };
            out.set(i, fresh);
            assert(is_reserved(given[i as int].id) && !given[i as int].is_default);
            changed = true;
        }
        assert(out.deep_view()[i as int] == fixed[i as int]);
        assert(forall|j: int| 0 <= j < out.len() && j != i ==> out.deep_view()[j] == before[j]);
        i += 1;
    }
    assert(out.deep_view() =~= fixed);
    assert(changed == has_unmarked(given));
    let has_manual = contains_default(out.as_slice(), MANUAL_ID);
    let has_specification = contains_default(out.as_slice(), SPECIFICATION_ID);
    if !has_manual {
        let ghost before = out.deep_view();
        out.push(manual_preset());
        assert(out.deep_view() =~= before.push(manual_model()));
        changed = true;
    }
    if !has_specification {
        let ghost before = out.deep_view();
        out.push(specification_preset());
        assert(out.deep_view() =~= before.push(specification_model()));
        changed = true;
    }
    (out, changed)
}

/// After loading, both defaults are among the presets, and loading again
/// changes nothing.
pub proof fn lemma_restored_has_defaults(presets: Seq<PresetModel>)
    ensures
        has_default(restored(presets), MANUAL_ID@),
        has_default(restored(presets), SPECIFICATION_ID@),
        !has_unmarked(restored(presets)),
        !needs_storing(restored(presets)),
        restored(restored(presets)) == restored(presets),
{
    let fixed = presets.map_values(|p: PresetModel| marked(p));
    let out = restored(presets);
    lemma_with_defaults_has_defaults(fixed);
    assert forall|i: int| 0 <= i < out.len() && is_reserved(out[i].id) implies out[i].is_default by {
        if i < fixed.len() {
            assert(out[i] == fixed[i]);
        }
    }
    assert(out.map_values(|p: PresetModel| marked(p)) =~= out);
}

/// After the defaults are added, both are among the presets.
pub proof fn lemma_with_defaults_has_defaults(presets: Seq<PresetModel>)
    ensures
        has_default(with_defaults(presets), MANUAL_ID@),
        has_default(with_defaults(presets), SPECIFICATION_ID@),
        with_defaults(with_defaults(presets)) == with_defaults(presets),
{
    let out = with_defaults(presets);
    let first = if has_default(presets, MANUAL_ID@) {
        presets
    } else {
        presets.push(manual_model())
    };
    if has_default(presets, MANUAL_ID@) {
        let i = choose|i: int|
            0 <= i < presets.len() && presets[i].id == MANUAL_ID@ && #[trigger] presets[i].is_default;
        assert(out[i].id == MANUAL_ID@ && out[i].is_default);
    } else {
        let i = presets.len() as int;
        assert(out[i].id == MANUAL_ID@ && out[i].is_default);
    }
    if has_default(presets, SPECIFICATION_ID@) {
        let i = choose|i: int|
            0 <= i < presets.len() && presets[i].id == SPECIFICATION_ID@
                && #[trigger] presets[i].is_default;
        assert(out[i].id == SPECIFICATION_ID@ && out[i].is_default);
    } else {
        let i = first.len() as int;
        assert(out[i].id == SPECIFICATION_ID@ && out[i].is_default);
    }
}

/// The stored form of a flag.
pub open spec fn flag_text(flag: bool) -> Seq<char> {
    if flag {
        "true"@
    } else {
        "false"@
    }
}

/// The stored form of one preset.
pub open spec fn preset_xml(preset: PresetModel) -> Seq<char> {
    "  "@ + PRESET_OPEN@ + preset.id + "\" "@ + FLAG_OPEN@ + flag_text(preset.is_default)
        + "\">\n    "@ + NAME_OPEN@ + preset.name + NAME_CLOSE@ + "\n    <prompt>"@ + PROMPT_OPEN@
        + preset.prompt + PROMPT_CLOSE@ + "</prompt>\n  </preset>\n"@
}

/// The stored forms of the first `count` presets, one after the other.
pub open spec fn presets_xml_body(presets: Seq<PresetModel>, count: nat) -> Seq<char>
    decreases count,
{
    if count == 0 || count > presets.len() {
        Seq::empty()
    } else {
        presets_xml_body(presets, (count - 1) as nat) + preset_xml(presets[count - 1])
    }
}

/// The stored form of a list of presets.
pub open spec fn presets_xml(presets: Seq<PresetModel>) -> Seq<char> {
    XML_HEAD@ + presets_xml_body(presets, presets.len()) + XML_TAIL@
}

/// The stored form of a list of presets. Nothing in a preset is escaped.
pub fn presets_to_xml(presets: &[PromptPreset]) -> (r: String)
    ensures
        r@ == presets_xml(presets.deep_view()),
{
    let mut out = String::from_str(XML_HEAD);
    let mut i: usize = 0;
    while i < presets.len()
        invariant
            i <= presets.len(),
            out@ == XML_HEAD@ + presets_xml_body(presets.deep_view(), i as nat),
        decreases presets.len() - i,
    {
        let ghost before = out@;
        let preset = &presets[i];
        let mut entry = String::from_str("  ");
        entry.append(PRESET_OPEN);
        entry.append(preset.id.as_str());
        entry.append("\" ");
        entry.append(FLAG_OPEN);
        if preset.is_default {
            entry.append("true");
        } else {
            entry.append("false");
        }
        entry.append("\">\n    ");
        entry.append(NAME_OPEN);
        entry.append(preset.name.as_str());
        entry.append(NAME_CLOSE);
        entry.append("\n    <prompt>");
        entry.append(PROMPT_OPEN);
        entry.append(preset.prompt.as_str());
        entry.append(PROMPT_CLOSE);
        entry.append("</prompt>\n  </preset>\n");
        assert(entry@ == preset_xml(presets.deep_view()[i as int]));
        out.append(entry.as_str());
        assert(out@ == XML_HEAD@ + (presets_xml_body(presets.deep_view(), i as nat) + entry@));
        i += 1;
    }
    out.append(XML_TAIL);
    out
}

/// The text between `open` and the next `close`, where `open` is looked
/// for from `from` on.
pub open spec fn enclosed(xml: Seq<char>, open: Seq<char>, close: Seq<char>, from: int) -> Option<
    Seq<char>,
> {
    match first_occurrence(xml, open, from) {
        None => None,
        Some(at) => match first_occurrence(xml, close, at + open.len()) {
            None => None,
            Some(end) => if at + open.len() <= end <= xml.len() {
                Some(xml.subrange(at + open.len(), end))
            } else {
                None
            },
        },
    }
}

/// The preset that is stored in `xml` at `start`, where a preset opens: its
/// id up to the next quotation mark, and the first flag, name and prompt
/// that follow `start`. A preset without id, name or prompt is none; one
/// without flag is not a default.
pub open spec fn preset_at(xml: Seq<char>, start: int) -> Option<PresetModel> {
    match enclosed(xml, PRESET_OPEN@, "\""@, start) {
        None => None,
        Some(id) => match enclosed(xml, NAME_OPEN@, NAME_CLOSE@, start) {
            None => None,
            Some(name) => match enclosed(xml, PROMPT_OPEN@, PROMPT_CLOSE@, start) {
                None => None,
                Some(prompt) => Some(
                    PresetModel {
                        id,
                        name,
                        prompt,
                        is_default: enclosed(xml, FLAG_OPEN@, "\""@, start) == Some("true"@),
                    },
                ),
            },
        },
    }
}

/// The presets that are stored in `xml` from `from` on: one for each place
/// where a preset opens, in order.
pub open spec fn presets_from(xml: Seq<char>, from: int) -> Seq<PresetModel>
    decreases xml.len() - from,
{
    match first_occurrence(xml, PRESET_OPEN@, from) {
        None => Seq::empty(),
        Some(start) => if start < from || start >= xml.len() {
            Seq::empty()
        } else {
            (match preset_at(xml, start) {
                Some(preset) => seq![preset],
                None => Seq::empty(),
            }) + presets_from(xml, start + 1)
        },
    }
}

/// The presets that are stored in `xml`.
pub open spec fn parsed_presets(xml: Seq<char>) -> Seq<PresetModel> {
    presets_from(xml, 0)
}

fn find_enclosed(xml: &[char], open: &str, close: &str, from: usize) -> (r: Option<String>)
    ensures
        r.deep_view() == enclosed(xml@, open@, close@, from as int),
{
    let open_chars = chars_of(open);
    let close_chars = chars_of(close);
    match find_from(xml, open_chars.as_slice(), from) {
        None => None,
        Some(at) => {
            proof {
                crate::text::lemma_first_occurrence(xml@, open@, from as int);
                assert(crate::text::occurs_at(xml@, open@, at as int));
                assert(at + open_chars.len() <= xml.len());
            }
            let begin = at + open_chars.len();
            match find_from(xml, close_chars.as_slice(), begin) {
                None => None,
                Some(end) => {
                    proof {
                        crate::text::lemma_first_occurrence(xml@, close@, begin as int);
                    }
                    Some(text_between(xml, begin, end))
                },
            }
        },
    }
}

fn read_preset_at(xml: &[char], start: usize) -> (r: Option<PromptPreset>)
    ensures
        r.deep_view() == preset_at(xml@, start as int),
{
    let id = match find_enclosed(xml, PRESET_OPEN, "\"", start) {
        None => {
            return None;
        },
        Some(id) => id,
    };
    let is_default = match find_enclosed(xml, FLAG_OPEN, "\"", start) {
        None => false,
        Some(flag) => same_text(flag.as_str(), "true"),
    };
    let name = match find_enclosed(xml, NAME_OPEN, NAME_CLOSE, start) {
        None => {
            return None;
        },
        Some(name) => name,
    };
    let prompt = match find_enclosed(xml, PROMPT_OPEN, PROMPT_CLOSE, start) {
        None => {
            return None;
        },
        Some(prompt) => prompt,
    };
    Some(PromptPreset { id, name, prompt, is_default })
}

/// Reads the presets that are stored in `xml_content`. Text that holds no
/// preset gives none; nothing is an error.
pub fn parse_prompt_presets_xml(xml_content: &str) -> (r: Result<Vec<PromptPreset>, String>)
    ensures
        match r {
            Ok(presets) => presets.deep_view() == parsed_presets(xml_content@),
            Err(_) => false,
        },
{
    let xml = chars_of(xml_content);
    let open = chars_of(PRESET_OPEN);
    let mut presets: Vec<PromptPreset> = Vec::new();
    let mut pos: usize = 0;
    loop
        invariant
            xml@ == xml_content@,
            open@ == PRESET_OPEN@,
            pos <= xml.len(),
            presets.deep_view() + presets_from(xml@, pos as int) == parsed_presets(xml@),
        decreases xml.len() - pos,
    {
        match find_from(xml.as_slice(), open.as_slice(), pos) {
            None => {
                assert(presets_from(xml@, pos as int) == Seq::<PresetModel>::empty());
                assert(presets.deep_view() + Seq::<PresetModel>::empty() == presets.deep_view());
                return Ok(presets);
            },
            Some(start) => {
                proof {
                    crate::text::lemma_first_occurrence(xml@, open@, pos as int);
                }
                if start >= xml.len() {
                    assert(presets_from(xml@, pos as int) == Seq::<PresetModel>::empty());
                    assert(presets.deep_view() + Seq::<PresetModel>::empty()
                        == presets.deep_view());
                    return Ok(presets);
                }
                let ghost before = presets.deep_view();
                match read_preset_at(xml.as_slice(), start) {
                    Some(preset) => {
                        presets.push(preset);
                        assert(presets.deep_view() =~= before + seq![preset.deep_view()]);
                    },
                    None => {
                        assert(presets.deep_view() =~= before + Seq::<PresetModel>::empty());
                    },
                }
                assert(presets.deep_view() + presets_from(xml@, start + 1) =~= before
                    + presets_from(xml@, pos as int));
                pos = start + 1;
            },
        }
    }
}

/// Whether `presets` holds a preset with this id.
pub open spec fn has_id(presets: Seq<PresetModel>, id: Seq<char>) -> bool {
    exists|i: int| 0 <= i < presets.len() && #[trigger] presets[i].id == id
}

/// The `k`-th id that is tried for an imported preset whose own id is `id`:
/// the id itself, then the id with `_1`, `_2` and so on behind it.
pub open spec fn candidate_id(id: Seq<char>, k: nat) -> Seq<char> {
    if k == 0 {
        id
    } else {
        id + "_"@ + decimal_text(k)
    }
}

/// The first id from the `k`-th candidate on that no preset of `presets`
/// has, where `more` further candidates may be tried.
pub open spec fn free_id(presets: Seq<PresetModel>, id: Seq<char>, k: nat, more: nat) -> Seq<char>
    decreases more,
{
    if more == 0 || !has_id(presets, candidate_id(id, k)) {
        candidate_id(id, k)
    } else {
        free_id(presets, id, k + 1, (more - 1) as nat)
    }
}

/// The id under which a preset with the id `id` is imported beside
/// `presets`: the first candidate that none of them has.
pub open spec fn imported_id(presets: Seq<PresetModel>, id: Seq<char>) -> Seq<char> {
    free_id(presets, id, 0, presets.len())
}

/// `existing`, followed by the first `count` of `imported`: each under the
/// first candidate id that nothing before it has, and none marked as a
/// default.
pub open spec fn merged(existing: Seq<PresetModel>, imported: Seq<PresetModel>, count: nat) -> Seq<
    PresetModel,
>
    decreases count,
{
    if count == 0 || count > imported.len() {
        existing
    } else {
        let before = merged(existing, imported, (count - 1) as nat);
        let preset = imported[count - 1];
        before.push(
            PresetModel { id: imported_id(before, preset.id), is_default: false, ..preset },
        )
    }
}

/// Whether `presets` holds a preset with this id.
pub fn contains_id(presets: &[PromptPreset], id: &str) -> (r: bool)
    ensures
        r == has_id(presets.deep_view(), id@),
{
    let mut i: usize = 0;
    while i < presets.len()
        invariant
            i <= presets.len(),
            forall|j: int| 0 <= j < i ==> #[trigger] presets.deep_view()[j].id != id@,
        decreases presets.len() - i,
    {
        if same_text(presets[i].id.as_str(), id) {
            assert(presets.deep_view()[i as int].id == id@);
            return true;
        }
        i += 1;
    }
    false
}

/// The id under which a preset with the id `id` is imported beside
/// `presets`.
pub fn unique_id(presets: &[PromptPreset], id: &str) -> (r: String)
    ensures
        r@ == imported_id(presets.deep_view(), id@),
{
    let mut k: usize = 0;
    let mut candidate = String::from_str(id);
    loop
        invariant
            k <= presets.len(),
            candidate@ == candidate_id(id@, k as nat),
            imported_id(presets.deep_view(), id@) == free_id(
                presets.deep_view(),
                id@,
                k as nat,
                (presets.len() - k) as nat,
            ),
        decreases presets.len() - k,
    {
        if k == presets.len() || !contains_id(presets, candidate.as_str()) {
            return candidate;
        }
        k += 1;
        candidate = String::from_str(id);
        candidate.append("_");
        candidate.append(decimal(k as u64).as_str());
    }
}

/// Adds imported presets to the existing ones: each under an id that
/// nothing before it has, and none marked as a default.
pub fn merge_imported(existing: Vec<PromptPreset>, imported: &[PromptPreset]) -> (r: Vec<
    PromptPreset,
>)
    ensures
        r.deep_view() == merged(existing.deep_view(), imported.deep_view(), imported.len() as nat),
{
    let mut all = existing;
    let mut i: usize = 0;
    while i < imported.len()
        invariant
            i <= imported.len(),
            all.deep_view() == merged(existing.deep_view(), imported.deep_view(), i as nat),
        decreases imported.len() - i,
    {
        let ghost before = all.deep_view();
        let preset = &imported[i];
        let fresh = PromptPreset {
            id: unique_id(all.as_slice(), preset.id.as_str()),
            name: preset.name.clone(),
            prompt: preset.prompt.clone(),
            is_default: false,
        };
        all.push(fresh);
        assert(all.deep_view() =~= before.push(fresh.deep_view()));
        i += 1;
    }
    all
}

/// Of distinct numbers below `bound`, there are at most `bound`.
pub proof fn lemma_pigeonhole(values: Seq<int>, bound: nat)
    requires
        forall|i: int| 0 <= i < values.len() ==> 0 <= #[trigger] values[i] < bound,
        forall|i: int, j: int|
            0 <= i < j < values.len() ==> #[trigger] values[i] != #[trigger] values[j],
    ensures
        values.len() <= bound,
    decreases bound,
{
    if values.len() == 0 {
    } else if bound == 0 {
        let first = values[0];
        assert(0 <= first && first < bound);
    } else {
        let top = bound - 1;
        if exists|j: int| 0 <= j < values.len() && values[j] == top {
            let j = choose|j: int| 0 <= j < values.len() && values[j] == top;
            let rest = values.remove(j);
            assert forall|i: int| 0 <= i < rest.len() implies 0 <= #[trigger] rest[i] < top by {
                if i < j {
                    assert(rest[i] == values[i]);
                } else {
                    assert(rest[i] == values[i + 1]);
                }
            }
            assert forall|a: int, b: int| 0 <= a < b < rest.len() implies #[trigger] rest[a]
                != #[trigger] rest[b] by {
                let x = if a < j {
                    a
                } else {
                    a + 1
                };
                let y = if b < j {
                    b
                } else {
                    b + 1
                };
                assert(rest[a] == values[x] && rest[b] == values[y]);
            }
            lemma_pigeonhole(rest, top as nat);
        } else {
            lemma_pigeonhole(values, top as nat);
        }
    }
}

/// Different candidates are different ids.
pub proof fn lemma_candidates_differ(id: Seq<char>, a: nat, b: nat)
    requires
        a != b,
    ensures
        candidate_id(id, a) != candidate_id(id, b),
{
    reveal_strlit("_");
    if a == 0 || b == 0 {
        let k = if a == 0 {
            b
        } else {
            a
        };
        assert(candidate_id(id, k).len() > id.len());
    } else {
        if candidate_id(id, a) == candidate_id(id, b) {
            let prefix = id + "_"@;
            assert(decimal_text(a) =~= candidate_id(id, a).subrange(
                prefix.len() as int,
                candidate_id(id, a).len() as int,
            ));
            assert(decimal_text(b) =~= candidate_id(id, b).subrange(
                prefix.len() as int,
                candidate_id(id, b).len() as int,
            ));
            lemma_decimal_text_injective(a, b);
        }
    }
}

/// Where every candidate from `k` up to `k + more` is taken, the presets
/// hold as many different ids as there are candidates.
proof fn lemma_some_candidate_free(presets: Seq<PresetModel>, id: Seq<char>)
    ensures
        exists|k: nat| k <= presets.len() && !has_id(presets, candidate_id(id, k)),
{
    if forall|k: nat| k <= presets.len() ==> has_id(presets, candidate_id(id, k)) {
        let count = presets.len() + 1;
        let places = Seq::new(
            count,
            |k: int|
                choose|i: int|
                    0 <= i < presets.len() && #[trigger] presets[i].id == candidate_id(
                        id,
                        k as nat,
                    ),
        );
        assert forall|k: int| 0 <= k < places.len() implies 0 <= #[trigger] places[k]
            < presets.len() && presets[places[k]].id == candidate_id(id, k as nat) by {
            assert(has_id(presets, candidate_id(id, k as nat)));
        }
        assert forall|a: int, b: int| 0 <= a < b < places.len() implies #[trigger] places[a]
            != #[trigger] places[b] by {
            lemma_candidates_differ(id, a as nat, b as nat);
            assert(presets[places[a]].id == candidate_id(id, a as nat));
            assert(presets[places[b]].id == candidate_id(id, b as nat));
        }
        lemma_pigeonhole(places, presets.len());
    }
}

/// Where some candidate from `k` up to `k + more` is free, `free_id` gives a
/// free one.
proof fn lemma_free_id_within(presets: Seq<PresetModel>, id: Seq<char>, k: nat, more: nat, free: nat)
    requires
        k <= free <= k + more,
        !has_id(presets, candidate_id(id, free)),
    ensures
        !has_id(presets, free_id(presets, id, k, more)),
    decreases more,
{
    if !has_id(presets, candidate_id(id, k)) {
    } else {
        lemma_free_id_within(presets, id, k + 1, (more - 1) as nat, free);
    }
}

/// An imported preset never takes the id of a preset that is already there.
pub proof fn lemma_imported_id_is_free(presets: Seq<PresetModel>, id: Seq<char>)
    ensures
        !has_id(presets, imported_id(presets, id)),
{
    lemma_some_candidate_free(presets, id);
    let free = choose|k: nat| k <= presets.len() && !has_id(presets, candidate_id(id, k));
    lemma_free_id_within(presets, id, 0, presets.len(), free);
}

/// Importing keeps what was there and, where the ids were all different
/// before, they are all different after.
pub proof fn lemma_merge_keeps_ids_distinct(
    existing: Seq<PresetModel>,
    imported: Seq<PresetModel>,
    count: nat,
)
    requires
        count <= imported.len(),
        forall|i: int, j: int|
            0 <= i < j < existing.len() ==> #[trigger] existing[i].id != #[trigger] existing[j].id,
    ensures
        merged(existing, imported, count).len() == existing.len() + count,
        merged(existing, imported, count).subrange(0, existing.len() as int) == existing,
        forall|i: int, j: int|
            0 <= i < j < merged(existing, imported, count).len() ==> #[trigger] merged(
                existing,
                imported,
                count,
            )[i].id != #[trigger] merged(existing, imported, count)[j].id,
    decreases count,
{
    if count == 0 {
        assert(existing.subrange(0, existing.len() as int) =~= existing);
    } else {
        let before = merged(existing, imported, (count - 1) as nat);
        lemma_merge_keeps_ids_distinct(existing, imported, (count - 1) as nat);
        let out = merged(existing, imported, count);
        lemma_imported_id_is_free(before, imported[count - 1].id);
        assert(out.subrange(0, existing.len() as int) =~= before.subrange(
            0,
            existing.len() as int,
        ));
        assert forall|i: int, j: int| 0 <= i < j < out.len() implies #[trigger] out[i].id
            != #[trigger] out[j].id by {
            if j < before.len() {
                assert(out[i] == before[i] && out[j] == before[j]);
            } else {
                assert(out[i] == before[i]);
                assert(before[i].id == before[i].id);
            }
        }
    }
}

} // verus!
