//! The built-in pattern categories.
//!
//! Each category is stated twice: as a mathematical table, which the
//! contracts of the scoring engine speak of, and as the executable value
//! built from the same literals.

use crate::injection::patterns::{DetectionPattern, PatternCategory, PatternCategoryView, Terms};
use crate::text::{chars_eq, to_chars};
use vstd::prelude::*;
use vstd::string::StringExecFns;

verus! {

/// The name under which custom patterns are reported.
pub open spec fn custom_category_name() -> Seq<char> {
    "custom"@
}

/// The name of the category that also covers zero-width characters.
pub open spec fn hidden_category_name() -> Seq<char> {
    "hidden_instructions"@
}

/// Owned copies of a list of keywords.
fn words(list: &[&str]) -> (r: Vec<String>)
    ensures
        r.deep_view() == list.deep_view(),
{
    let mut r: Vec<String> = Vec::new();
    let mut i: usize = 0;
    while i < list.len()
        invariant
            i <= list.len(),
            r@.len() == i,
            forall|j: int| 0 <= j < i ==> (#[trigger] r@[j])@ == list@[j]@,
        decreases list.len() - i,
    {
        r.push(String::from_str(list[i]));
        i += 1;
    }
    assert(r.deep_view() =~= list.deep_view());
    r
}

/// A category made of its parts.
fn category(name: &str, weight: u32, patterns: Vec<DetectionPattern>) -> (c: PatternCategory)
    ensures
        c@ == (PatternCategoryView { name: name@, weight, patterns: patterns.deep_view() }),
{
    PatternCategory { name: String::from_str(name), weight, patterns }
}

/// Attempts to cancel the instructions given so far.
pub open spec fn prompt_override_patterns() -> Seq<Terms> {
    seq![
        seq![
            seq!["ignore"@],
            seq!["previous"@],
            seq!["instruction"@, "command"@, "prompt"@],
        ],
        seq![
            seq!["disregard"@],
            seq!["previous"@, "prior"@, "earlier"@],
            seq!["instruction"@, "command"@],
        ],
        seq![
            seq!["forget"@],
            seq!["previous"@, "prior"@, "earlier"@],
            seq!["instruction"@, "command"@],
        ],
        seq![
            seq!["override"@],
            seq!["previous"@, "prior"@, "current"@],
            seq!["instruction"@, "command"@],
        ],
        seq![
            seq!["new instruction"@],
            seq!["ignore"@],
        ],
        seq![
            seq!["do not follow"@],
            seq!["previous"@, "prior"@, "earlier"@],
            seq!["instruction"@, "rule"@],
        ],
    ]
}

/// The `prompt_override` category, weight 8.
pub open spec fn prompt_override_category() -> PatternCategoryView {
    PatternCategoryView {
        name: "prompt_override"@,
        weight: 8,
        patterns: prompt_override_patterns(),
    }
}

fn build_prompt_override() -> (c: PatternCategory)
    ensures
        c@ == prompt_override_category(),
{
    let patterns = vec![
        DetectionPattern {
            terms: vec![
                words(&["ignore"]),
                words(&["previous"]),
                words(&["instruction", "command", "prompt"]),
            ],
        },
        DetectionPattern {
            terms: vec![
                words(&["disregard"]),
                words(&["previous", "prior", "earlier"]),
                words(&["instruction", "command"]),
            ],
        },
        DetectionPattern {
            terms: vec![
                words(&["forget"]),
                words(&["previous", "prior", "earlier"]),
                words(&["instruction", "command"]),
            ],
        },
        DetectionPattern {
            terms: vec![
                words(&["override"]),
                words(&["previous", "prior", "current"]),
                words(&["instruction", "command"]),
            ],
        },
        DetectionPattern {
            terms: vec![
                words(&["new instruction"]),
                words(&["ignore"]),
            ],
        },
        DetectionPattern {
            terms: vec![
                words(&["do not follow"]),
                words(&["previous", "prior", "earlier"]),
                words(&["instruction", "rule"]),
            ],
        },
    ];
    assert(patterns.deep_view() =~~= prompt_override_patterns());
    category("prompt_override", 8, patterns)
}

/// Attempts to give the reader a privileged or unrestricted role.
pub open spec fn role_manipulation_patterns() -> Seq<Terms> {
    seq![
        seq![
            seq!["you are now"@],
            seq!["admin"@, "root"@, "system"@, "jailbroken"@, "unrestricted"@],
        ],
        seq![
            seq!["act as"@],
            seq!["admin"@, "root"@, "system"@, "unrestricted"@],
        ],
        seq![
            seq!["pretend"@],
            seq!["admin"@, "root"@, "system"@, "unrestricted"@],
        ],
        seq![
            seq!["switch to"@],
            seq!["admin"@, "root"@, "system"@, "developer"@, "debug"@],
            seq!["mode"@],
        ],
        seq![
            seq!["enter"@],
            seq!["admin"@, "root"@, "system"@, "developer"@, "debug"@],
            seq!["mode"@],
        ],
        seq![
            seq!["you have no"@],
            seq!["restriction"@, "limitation"@, "rule"@, "constraint"@],
        ],
    ]
}

/// The `role_manipulation` category, weight 7.
pub open spec fn role_manipulation_category() -> PatternCategoryView {
    PatternCategoryView {
        name: "role_manipulation"@,
        weight: 7,
        patterns: role_manipulation_patterns(),
    }
}

fn build_role_manipulation() -> (c: PatternCategory)
    ensures
        c@ == role_manipulation_category(),
{
    let patterns = vec![
        DetectionPattern {
            terms: vec![
                words(&["you are now"]),
                words(&["admin", "root", "system", "jailbroken", "unrestricted"]),
            ],
        },
        DetectionPattern {
            terms: vec![
                words(&["act as"]),
                words(&["admin", "root", "system", "unrestricted"]),
            ],
        },
        DetectionPattern {
            terms: vec![
                words(&["pretend"]),
                words(&["admin", "root", "system", "unrestricted"]),
            ],
        },
        DetectionPattern {
            terms: vec![
                words(&["switch to"]),
                words(&["admin", "root", "system", "developer", "debug"]),
                words(&["mode"]),
            ],
        },
        DetectionPattern {
            terms: vec![
                words(&["enter"]),
                words(&["admin", "root", "system", "developer", "debug"]),
                words(&["mode"]),
            ],
        },
        DetectionPattern {
            terms: vec![
                words(&["you have no"]),
                words(&["restriction", "limitation", "rule", "constraint"]),
            ],
        },
    ];
    assert(patterns.deep_view() =~~= role_manipulation_patterns());
    category("role_manipulation", 7, patterns)
}

/// Text posing as a command from the system or an administrator.
pub open spec fn system_override_patterns() -> Seq<Terms> {
    seq![
        seq![
            seq!["system:"@],
            seq!["override"@, "execute"@, "run"@, "bypass"@],
        ],
        seq![
            seq!["admin:"@],
            seq!["override"@, "execute"@, "run"@, "bypass"@],
        ],
        seq![
            seq!["root:"@],
            seq!["execute"@, "run"@],
        ],
        seq![
            seq!["execute as"@],
            seq!["root"@, "admin"@, "system"@, "superuser"@],
        ],
        seq![
            seq!["[system override]"@],
        ],
        seq![
            seq!["[admin override]"@],
        ],
    ]
}

/// The `system_override` category, weight 9.
pub open spec fn system_override_category() -> PatternCategoryView {
    PatternCategoryView {
        name: "system_override"@,
        weight: 9,
        patterns: system_override_patterns(),
    }
}

fn build_system_override() -> (c: PatternCategory)
    ensures
        c@ == system_override_category(),
{
    let patterns = vec![
        DetectionPattern {
            terms: vec![
                words(&["system:"]),
                words(&["override", "execute", "run", "bypass"]),
            ],
        },
        DetectionPattern {
            terms: vec![
                words(&["admin:"]),
                words(&["override", "execute", "run", "bypass"]),
            ],
        },
        DetectionPattern {
            terms: vec![
                words(&["root:"]),
                words(&["execute", "run"]),
            ],
        },
        DetectionPattern {
            terms: vec![
                words(&["execute as"]),
                words(&["root", "admin", "system", "superuser"]),
            ],
        },
        DetectionPattern {
            terms: vec![
                words(&["[system override]"]),
            ],
        },
        DetectionPattern {
            terms: vec![
                words(&["[admin override]"]),
            ],
        },
    ];
    assert(patterns.deep_view() =~~= system_override_patterns());
    category("system_override", 9, patterns)
}

/// Requests to switch off safety measures.
pub open spec fn safety_bypass_patterns() -> Seq<Terms> {
    seq![
        seq![
            seq!["disregard"@],
            seq!["safety"@, "security"@, "restriction"@, "guardrail"@],
        ],
        seq![
            seq!["bypass"@],
            seq!["safety"@, "security"@, "restriction"@, "guardrail"@, "filter"@],
        ],
        seq![
            seq!["ignore"@],
            seq!["safety"@, "security"@, "restriction"@, "guardrail"@],
        ],
        seq![
            seq!["disable"@],
            seq!["safety"@, "security"@, "guardrail"@, "filter"@, "protection"@],
        ],
        seq![
            seq!["turn off"@],
            seq!["safety"@, "security"@, "guardrail"@, "filter"@],
        ],
        seq![
            seq!["remove"@],
            seq!["restriction"@, "limitation"@, "filter"@, "constraint"@],
        ],
    ]
}

/// The `safety_bypass` category, weight 8.
pub open spec fn safety_bypass_category() -> PatternCategoryView {
    PatternCategoryView {
        name: "safety_bypass"@,
        weight: 8,
        patterns: safety_bypass_patterns(),
    }
}

fn build_safety_bypass() -> (c: PatternCategory)
    ensures
        c@ == safety_bypass_category(),
{
    let patterns = vec![
        DetectionPattern {
            terms: vec![
                words(&["disregard"]),
                words(&["safety", "security", "restriction", "guardrail"]),
            ],
        },
        DetectionPattern {
            terms: vec![
                words(&["bypass"]),
                words(&["safety", "security", "restriction", "guardrail", "filter"]),
            ],
        },
        DetectionPattern {
            terms: vec![
                words(&["ignore"]),
                words(&["safety", "security", "restriction", "guardrail"]),
            ],
        },
        DetectionPattern {
            terms: vec![
                words(&["disable"]),
                words(&["safety", "security", "guardrail", "filter", "protection"]),
            ],
        },
        DetectionPattern {
            terms: vec![
                words(&["turn off"]),
                words(&["safety", "security", "guardrail", "filter"]),
            ],
        },
        DetectionPattern {
            terms: vec![
                words(&["remove"]),
                words(&["restriction", "limitation", "filter", "constraint"]),
            ],
        },
    ];
    assert(patterns.deep_view() =~~= safety_bypass_patterns());
    category("safety_bypass", 8, patterns)
}

/// Markers of instructions hidden from a human reader.
pub open spec fn hidden_instructions_patterns() -> Seq<Terms> {
    seq![
        seq![
            seq!["[hidden]"@],
        ],
        seq![
            seq!["[secret]"@],
        ],
        seq![
            seq!["[invisible]"@],
        ],
        seq![
            seq!["<!--"@],
            seq!["inject"@, "system"@, "admin"@, "override"@, "ignore"@],
        ],
    ]
}

/// The `hidden_instructions` category, weight 6.
pub open spec fn hidden_instructions_category() -> PatternCategoryView {
    PatternCategoryView {
        name: "hidden_instructions"@,
        weight: 6,
        patterns: hidden_instructions_patterns(),
    }
}

fn build_hidden_instructions() -> (c: PatternCategory)
    ensures
        c@ == hidden_instructions_category(),
{
    let patterns = vec![
        DetectionPattern {
            terms: vec![
                words(&["[hidden]"]),
            ],
        },
        DetectionPattern {
            terms: vec![
                words(&["[secret]"]),
            ],
        },
        DetectionPattern {
            terms: vec![
                words(&["[invisible]"]),
            ],
        },
        DetectionPattern {
            terms: vec![
                words(&["<!--"]),
                words(&["inject", "system", "admin", "override", "ignore"]),
            ],
        },
    ];
    assert(patterns.deep_view() =~~= hidden_instructions_patterns());
    category("hidden_instructions", 6, patterns)
}

/// Requests to send data to an outside destination.
pub open spec fn data_exfiltration_patterns() -> Seq<Terms> {
    seq![
        seq![
            seq!["send"@],
            seq!["data"@, "info"@, "information"@, "content"@, "text"@, "response"@],
            seq!["to"@],
            seq!["http"@],
        ],
        seq![
            seq!["upload"@],
            seq!["data"@, "info"@, "information"@, "content"@],
            seq!["to"@],
        ],
        seq![
            seq!["exfiltrate"@],
        ],
        seq![
            seq!["transmit"@],
            seq!["data"@, "info"@, "information"@, "content"@],
            seq!["to"@],
        ],
        seq![
            seq!["forward"@],
            seq!["data"@, "info"@, "output"@, "response"@, "conversation"@],
            seq!["to"@],
            seq!["http"@],
        ],
    ]
}

/// The `data_exfiltration` category, weight 7.
pub open spec fn data_exfiltration_category() -> PatternCategoryView {
    PatternCategoryView {
        name: "data_exfiltration"@,
        weight: 7,
        patterns: data_exfiltration_patterns(),
    }
}

fn build_data_exfiltration() -> (c: PatternCategory)
    ensures
        c@ == data_exfiltration_category(),
{
    let patterns = vec![
        DetectionPattern {
            terms: vec![
                words(&["send"]),
                words(&["data", "info", "information", "content", "text", "response"]),
                words(&["to"]),
                words(&["http"]),
            ],
        },
        DetectionPattern {
            terms: vec![
                words(&["upload"]),
                words(&["data", "info", "information", "content"]),
                words(&["to"]),
            ],
        },
        DetectionPattern {
            terms: vec![
                words(&["exfiltrate"]),
            ],
        },
        DetectionPattern {
            terms: vec![
                words(&["transmit"]),
                words(&["data", "info", "information", "content"]),
                words(&["to"]),
            ],
        },
        DetectionPattern {
            terms: vec![
                words(&["forward"]),
                words(&["data", "info", "output", "response", "conversation"]),
                words(&["to"]),
                words(&["http"]),
            ],
        },
    ];
    assert(patterns.deep_view() =~~= data_exfiltration_patterns());
    category("data_exfiltration", 7, patterns)
}

/// Announcements of encoded or obfuscated content.
pub open spec fn encoding_tricks_patterns() -> Seq<Terms> {
    seq![
        seq![
            seq!["base64:"@],
        ],
        seq![
            seq!["decode this:"@],
        ],
        seq![
            seq!["rot13:"@],
        ],
    ]
}

/// The `encoding_tricks` category, weight 5.
pub open spec fn encoding_tricks_category() -> PatternCategoryView {
    PatternCategoryView {
        name: "encoding_tricks"@,
        weight: 5,
        patterns: encoding_tricks_patterns(),
    }
}

fn build_encoding_tricks() -> (c: PatternCategory)
    ensures
        c@ == encoding_tricks_category(),
{
    let patterns = vec![
        DetectionPattern {
            terms: vec![
                words(&["base64:"]),
            ],
        },
        DetectionPattern {
            terms: vec![
                words(&["decode this:"]),
            ],
        },
        DetectionPattern {
            terms: vec![
                words(&["rot13:"]),
            ],
        },
    ];
    assert(patterns.deep_view() =~~= encoding_tricks_patterns());
    category("encoding_tricks", 5, patterns)
}

/// All built-in categories, in their fixed order.
pub open spec fn builtin_categories() -> Seq<PatternCategoryView> {
    seq![
        prompt_override_category(),
        role_manipulation_category(),
        system_override_category(),
        safety_bypass_category(),
        hidden_instructions_category(),
        data_exfiltration_category(),
        encoding_tricks_category(),
    ]
}

/// The first category of `table`, from index `k` on, that is called `name`.
pub open spec fn category_from(table: Seq<PatternCategoryView>, name: Seq<char>, k: int) -> Option<
    PatternCategoryView,
>
    decreases table.len() - k,
{
    if k < 0 || k >= table.len() {
        None
    } else if table[k].name == name {
        Some(table[k])
    } else {
        category_from(table, name, k + 1)
    }
}

/// The built-in category called `name`, if there is one.
pub open spec fn category_named(name: Seq<char>) -> Option<PatternCategoryView> {
    category_from(builtin_categories(), name, 0)
}

/// Every built-in category has a positive weight.
pub proof fn lemma_builtin_weights_positive()
    ensures
        forall|i: int|
            0 <= i < builtin_categories().len() ==> (#[trigger] builtin_categories()[i]).weight > 0,
{
}

/// No two built-in categories have the same name.
pub proof fn lemma_builtin_names_distinct()
    ensures
        forall|i: int, j: int|
            0 <= i < j < builtin_categories().len() ==> (#[trigger] builtin_categories()[i]).name
                != (#[trigger] builtin_categories()[j]).name,
{
    reveal_strlit("prompt_override");
    reveal_strlit("role_manipulation");
    reveal_strlit("system_override");
    reveal_strlit("safety_bypass");
    reveal_strlit("hidden_instructions");
    reveal_strlit("data_exfiltration");
    reveal_strlit("encoding_tricks");
    let table = builtin_categories();
    assert(table[0].name[0] == 'p' && table[0].name.len() == 15);
    assert(table[1].name[0] == 'r' && table[1].name.len() == 17);
    assert(table[2].name[0] == 's' && table[2].name.len() == 15);
    assert(table[3].name[0] == 's' && table[3].name.len() == 13);
    assert(table[4].name[0] == 'h' && table[4].name.len() == 19);
    assert(table[5].name[0] == 'd' && table[5].name.len() == 17);
    assert(table[6].name[0] == 'e' && table[6].name.len() == 15);
}

/// A category found by name carries that name and a positive weight.
pub proof fn lemma_category_named(name: Seq<char>)
    ensures
        category_named(name) matches Some(c) ==> c.name == name && c.weight > 0,
{
    lemma_builtin_weights_positive();
    lemma_category_from(builtin_categories(), name, 0);
}

proof fn lemma_category_from(table: Seq<PatternCategoryView>, name: Seq<char>, k: int)
    requires
        0 <= k,
    ensures
        category_from(table, name, k) matches Some(c) ==> c.name == name && exists|i: int|
            k <= i < table.len() && table[i] == c,
    decreases table.len() - k,
{
    if k < table.len() && table[k].name != name {
        lemma_category_from(table, name, k + 1);
    }
}

/// Builds the table of built-in categories.
pub fn categories() -> (table: Vec<PatternCategory>)
    ensures
        table.deep_view() == builtin_categories(),
{
    let table = vec![
        build_prompt_override(),
        build_role_manipulation(),
        build_system_override(),
        build_safety_bypass(),
        build_hidden_instructions(),
        build_data_exfiltration(),
        build_encoding_tricks(),
    ];
    assert(table.deep_view() =~= builtin_categories());
    table
}

/// The index in `table` of the first category called `name`.
pub fn category_index(table: &Vec<PatternCategory>, name: &Vec<char>) -> (r: Option<usize>)
    ensures
        match r {
            Some(k) => k < table.len() && category_from(table.deep_view(), name@, 0) == Some(
                table@[k as int]@,
            ),
            None => category_from(table.deep_view(), name@, 0) is None,
        },
{
    let ghost view = table.deep_view();
    let mut k: usize = 0;
    while k < table.len()
        invariant
            k <= table.len(),
            view == table.deep_view(),
            category_from(view, name@, 0) == category_from(view, name@, k as int),
        decreases table.len() - k,
    {
        assert(view[k as int] == table@[k as int]@);
        let candidate = to_chars(table[k].name.as_str());
        if chars_eq(&candidate, name) {
            return Some(k);
        }
        k += 1;
    }
    None
}

/// Finds the built-in category with the given name.
pub fn find_category(name: &str) -> (r: Option<PatternCategory>)
    ensures
        r.deep_view() == category_named(name@),
{
    let mut table = categories();
    let chars = to_chars(name);
    match category_index(&table, &chars) {
        Some(k) => Some(table.remove(k)),
        None => None,
    }
}

} // verus!
