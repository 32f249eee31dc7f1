//! The registry of prompt templates: the closed set of templates, the
//! identifier each one is written as, the identifiers that are read, and the
//! order in which they are listed for a person to pick from.

use vstd::prelude::*;
use vstd::string::*;
use crate::text::{lowered_text, str_eq, str_eq_ignore_case, texts};

verus! {

/// A prompt template that a model can be run with.
#[derive(Clone, Copy, Debug, PartialEq, Eq, Structural)]
pub enum PromptTemplateType {
    Llama2Chat,
    MistralInstruct,
    MistralLite,
    OpenChat,
    CodeLlama,
    CodeLlamaSuper,
    HumanAssistant,
    VicunaChat,
    Vicuna11Chat,
    VicunaLlava,
    ChatML,
    Baichuan2,
    WizardCoder,
    Zephyr,
    StableLMZephyr,
    IntelNeural,
    DeepseekChat,
    DeepseekCoder,
    SolarInstruct,
    Phi2Chat,
    Phi2Instruct,
    GemmaInstruct,
}

/// Why an identifier was not read as a template.
#[derive(Clone, Debug, PartialEq, Eq)]
pub enum TemplateParseError {
    /// The identifier, as given, is neither a canonical id nor an alias.
    UnknownTemplate(String),
}

/// The model of a [`TemplateParseError`].
pub ghost enum TemplateParseErrorView {
    UnknownTemplate(Seq<char>),
}

impl View for TemplateParseError {
    type V = TemplateParseErrorView;

    open spec fn view(&self) -> TemplateParseErrorView {
        match *self {
            TemplateParseError::UnknownTemplate(id) => TemplateParseErrorView::UnknownTemplate(id@),
        }
    }
}

impl TemplateParseError {
    /// The identifier that was rejected.
    pub open spec fn rejected(self) -> Seq<char> {
        match self {
            TemplateParseError::UnknownTemplate(id) => id@,
        }
    }

    /// A sentence for a person, naming the identifier that was rejected.
    pub fn message(&self) -> (r: String)
        ensures
            r@ == "unknown prompt template: "@ + self.rejected(),
    {
        match self {
            TemplateParseError::UnknownTemplate(id) => {
                String::from_str("unknown prompt template: ").concat(id.as_str())
            },
        }
    }
}

/// How many templates are listed for selection.
pub const CATALOG_LEN: usize = 20;

/// The templates of the selection list, in the order in which they are shown.
/// The list has its own order, which is not the order of declaration, and
/// leaves out the templates that can only be asked for by name.
pub open spec fn catalog() -> Seq<PromptTemplateType> {
    seq![
        PromptTemplateType::Llama2Chat,
        PromptTemplateType::MistralInstruct,
        PromptTemplateType::MistralLite,
        PromptTemplateType::OpenChat,
        PromptTemplateType::CodeLlama,
        PromptTemplateType::HumanAssistant,
        PromptTemplateType::VicunaChat,
        PromptTemplateType::Vicuna11Chat,
        PromptTemplateType::VicunaLlava,
        PromptTemplateType::ChatML,
        PromptTemplateType::Baichuan2,
        PromptTemplateType::WizardCoder,
        PromptTemplateType::Zephyr,
        PromptTemplateType::StableLMZephyr,
        PromptTemplateType::IntelNeural,
        PromptTemplateType::DeepseekChat,
        PromptTemplateType::DeepseekCoder,
        PromptTemplateType::SolarInstruct,
        PromptTemplateType::Phi2Chat,
        PromptTemplateType::Phi2Instruct,
    ]
}

/// The identifiers of the selection list, in the order in which they are shown.
pub open spec fn catalog_ids() -> Seq<Seq<char>> {
    catalog().map_values(|t: PromptTemplateType| t.canonical_id())
}

/// `id` is an older spelling that is still read as `template`.
pub open spec fn is_alias_of(id: Seq<char>, template: PromptTemplateType) -> bool {
    template == PromptTemplateType::HumanAssistant && (id == "belle-llama-2-chat"@ || id
        == "human-assistant"@)
}

/// `id` is read as `template`: it is its canonical id or one of its aliases.
pub open spec fn denotes(id: Seq<char>, template: PromptTemplateType) -> bool {
    id == template.canonical_id() || is_alias_of(id, template)
}

/// The template that `id` is read as, if it is read as any.
pub open spec fn template_named(id: Seq<char>) -> Option<PromptTemplateType> {
    if exists|t: PromptTemplateType| denotes(id, t) {
        Some(choose|t: PromptTemplateType| denotes(id, t))
    } else {
        None
    }
}

/// What each identifier of the registry spells.
pub proof fn lemma_spellings()
    ensures
        "llama-2-chat"@ =~= seq!['l', 'l', 'a', 'm', 'a', '-', '2', '-', 'c', 'h', 'a', 't'],
        "mistral-instruct"@ =~= seq!['m', 'i', 's', 't', 'r', 'a', 'l', '-', 'i', 'n', 's', 't', 'r', 'u', 'c', 't'],
        "mistrallite"@ =~= seq!['m', 'i', 's', 't', 'r', 'a', 'l', 'l', 'i', 't', 'e'],
        "openchat"@ =~= seq!['o', 'p', 'e', 'n', 'c', 'h', 'a', 't'],
        "codellama-instruct"@ =~= seq!['c', 'o', 'd', 'e', 'l', 'l', 'a', 'm', 'a', '-', 'i', 'n', 's', 't', 'r', 'u', 'c', 't'],
        "codellama-super-instruct"@ =~= seq!['c', 'o', 'd', 'e', 'l', 'l', 'a', 'm', 'a', '-', 's', 'u', 'p', 'e', 'r', '-', 'i', 'n', 's', 't', 'r', 'u', 'c', 't'],
        "human-asistant"@ =~= seq!['h', 'u', 'm', 'a', 'n', '-', 'a', 's', 'i', 's', 't', 'a', 'n', 't'],
        "vicuna-1.0-chat"@ =~= seq!['v', 'i', 'c', 'u', 'n', 'a', '-', '1', '.', '0', '-', 'c', 'h', 'a', 't'],
        "vicuna-1.1-chat"@ =~= seq!['v', 'i', 'c', 'u', 'n', 'a', '-', '1', '.', '1', '-', 'c', 'h', 'a', 't'],
        "vicuna-llava"@ =~= seq!['v', 'i', 'c', 'u', 'n', 'a', '-', 'l', 'l', 'a', 'v', 'a'],
        "chatml"@ =~= seq!['c', 'h', 'a', 't', 'm', 'l'],
        "baichuan-2"@ =~= seq!['b', 'a', 'i', 'c', 'h', 'u', 'a', 'n', '-', '2'],
        "wizard-coder"@ =~= seq!['w', 'i', 'z', 'a', 'r', 'd', '-', 'c', 'o', 'd', 'e', 'r'],
        "zephyr"@ =~= seq!['z', 'e', 'p', 'h', 'y', 'r'],
        "stablelm-zephyr"@ =~= seq!['s', 't', 'a', 'b', 'l', 'e', 'l', 'm', '-', 'z', 'e', 'p', 'h', 'y', 'r'],
        "intel-neural"@ =~= seq!['i', 'n', 't', 'e', 'l', '-', 'n', 'e', 'u', 'r', 'a', 'l'],
        "deepseek-chat"@ =~= seq!['d', 'e', 'e', 'p', 's', 'e', 'e', 'k', '-', 'c', 'h', 'a', 't'],
        "deepseek-coder"@ =~= seq!['d', 'e', 'e', 'p', 's', 'e', 'e', 'k', '-', 'c', 'o', 'd', 'e', 'r'],
        "solar-instruct"@ =~= seq!['s', 'o', 'l', 'a', 'r', '-', 'i', 'n', 's', 't', 'r', 'u', 'c', 't'],
        "phi-2-chat"@ =~= seq!['p', 'h', 'i', '-', '2', '-', 'c', 'h', 'a', 't'],
        "phi-2-instruct"@ =~= seq!['p', 'h', 'i', '-', '2', '-', 'i', 'n', 's', 't', 'r', 'u', 'c', 't'],
        "gemma-instruct"@ =~= seq!['g', 'e', 'm', 'm', 'a', '-', 'i', 'n', 's', 't', 'r', 'u', 'c', 't'],
        "belle-llama-2-chat"@ =~= seq!['b', 'e', 'l', 'l', 'e', '-', 'l', 'l', 'a', 'm', 'a', '-', '2', '-', 'c', 'h', 'a', 't'],
        "human-assistant"@ =~= seq!['h', 'u', 'm', 'a', 'n', '-', 'a', 's', 's', 'i', 's', 't', 'a', 'n', 't'],
{
    reveal_strlit("llama-2-chat");
    reveal_strlit("mistral-instruct");
    reveal_strlit("mistrallite");
    reveal_strlit("openchat");
    reveal_strlit("codellama-instruct");
    reveal_strlit("codellama-super-instruct");
    reveal_strlit("human-asistant");
    reveal_strlit("vicuna-1.0-chat");
    reveal_strlit("vicuna-1.1-chat");
    reveal_strlit("vicuna-llava");
    reveal_strlit("chatml");
    reveal_strlit("baichuan-2");
    reveal_strlit("wizard-coder");
    reveal_strlit("zephyr");
    reveal_strlit("stablelm-zephyr");
    reveal_strlit("intel-neural");
    reveal_strlit("deepseek-chat");
    reveal_strlit("deepseek-coder");
    reveal_strlit("solar-instruct");
    reveal_strlit("phi-2-chat");
    reveal_strlit("phi-2-instruct");
    reveal_strlit("gemma-instruct");
    reveal_strlit("belle-llama-2-chat");
    reveal_strlit("human-assistant");
}

/// No identifier is read as two templates.
pub proof fn lemma_denotes_at_most_one(id: Seq<char>, a: PromptTemplateType, b: PromptTemplateType)
    requires
        denotes(id, a),
        denotes(id, b),
    ensures
        a == b,
{
    lemma_spellings();
}

/// An identifier that is read as a template is read as that one.
pub proof fn lemma_template_named(id: Seq<char>, template: PromptTemplateType)
    requires
        denotes(id, template),
    ensures
        template_named(id) == Some(template),
{
    let chosen = choose|t: PromptTemplateType| denotes(id, t);
    lemma_denotes_at_most_one(id, chosen, template);
}

/// Canonical ids hold no capital letters.
pub proof fn lemma_canonical_ids_are_small()
    ensures
        forall|t: PromptTemplateType| lowered_text(#[trigger] t.canonical_id()) == t.canonical_id(),
{
    lemma_spellings();
    assert forall|t: PromptTemplateType| lowered_text(#[trigger] t.canonical_id())
        == t.canonical_id() by {
        assert(lowered_text(t.canonical_id()) =~= t.canonical_id());
    }
}

impl PromptTemplateType {
    /// The one identifier that this template is written as.
    pub open spec fn canonical_id(self) -> Seq<char> {
        match self {
            PromptTemplateType::Llama2Chat => "llama-2-chat"@,
            PromptTemplateType::MistralInstruct => "mistral-instruct"@,
            PromptTemplateType::MistralLite => "mistrallite"@,
            PromptTemplateType::OpenChat => "openchat"@,
            PromptTemplateType::CodeLlama => "codellama-instruct"@,
            PromptTemplateType::CodeLlamaSuper => "codellama-super-instruct"@,
            PromptTemplateType::HumanAssistant => "human-asistant"@,
            PromptTemplateType::VicunaChat => "vicuna-1.0-chat"@,
            PromptTemplateType::Vicuna11Chat => "vicuna-1.1-chat"@,
            PromptTemplateType::VicunaLlava => "vicuna-llava"@,
            PromptTemplateType::ChatML => "chatml"@,
            PromptTemplateType::Baichuan2 => "baichuan-2"@,
            PromptTemplateType::WizardCoder => "wizard-coder"@,
            PromptTemplateType::Zephyr => "zephyr"@,
            PromptTemplateType::StableLMZephyr => "stablelm-zephyr"@,
            PromptTemplateType::IntelNeural => "intel-neural"@,
            PromptTemplateType::DeepseekChat => "deepseek-chat"@,
            PromptTemplateType::DeepseekCoder => "deepseek-coder"@,
            PromptTemplateType::SolarInstruct => "solar-instruct"@,
            PromptTemplateType::Phi2Chat => "phi-2-chat"@,
            PromptTemplateType::Phi2Instruct => "phi-2-instruct"@,
            PromptTemplateType::GemmaInstruct => "gemma-instruct"@,
        }
    }

    /// Reads an identifier: a canonical id or an alias gives its template, and
    /// anything else is handed back in the error.
    pub fn from_str(template: &str) -> (r: Result<PromptTemplateType, TemplateParseError>)
        ensures
            match r {
                Ok(t) => template_named(template@) == Some(t),
                Err(e) => template_named(template@) is None && e.rejected() == template@,
            },
    {
        let found =
        if str_eq(template, "llama-2-chat") {
            Some(PromptTemplateType::Llama2Chat)
        } else if str_eq(template, "mistral-instruct") {
            Some(PromptTemplateType::MistralInstruct)
        } else if str_eq(template, "mistrallite") {
            Some(PromptTemplateType::MistralLite)
        } else if str_eq(template, "codellama-instruct") {
            Some(PromptTemplateType::CodeLlama)
        } else if str_eq(template, "codellama-super-instruct") {
            Some(PromptTemplateType::CodeLlamaSuper)
        } else if str_eq(template, "belle-llama-2-chat") {
            Some(PromptTemplateType::HumanAssistant)
        } else if str_eq(template, "human-assistant") {
            Some(PromptTemplateType::HumanAssistant)
        } else if str_eq(template, "human-asistant") {
            Some(PromptTemplateType::HumanAssistant)
        } else if str_eq(template, "vicuna-1.0-chat") {
            Some(PromptTemplateType::VicunaChat)
        } else if str_eq(template, "vicuna-1.1-chat") {
            Some(PromptTemplateType::Vicuna11Chat)
        } else if str_eq(template, "vicuna-llava") {
            Some(PromptTemplateType::VicunaLlava)
        } else if str_eq(template, "chatml") {
            Some(PromptTemplateType::ChatML)
        } else if str_eq(template, "openchat") {
            Some(PromptTemplateType::OpenChat)
        } else if str_eq(template, "baichuan-2") {
            Some(PromptTemplateType::Baichuan2)
        } else if str_eq(template, "wizard-coder") {
            Some(PromptTemplateType::WizardCoder)
        } else if str_eq(template, "zephyr") {
            Some(PromptTemplateType::Zephyr)
        } else if str_eq(template, "stablelm-zephyr") {
            Some(PromptTemplateType::StableLMZephyr)
        } else if str_eq(template, "intel-neural") {
            Some(PromptTemplateType::IntelNeural)
        } else if str_eq(template, "deepseek-chat") {
            Some(PromptTemplateType::DeepseekChat)
        } else if str_eq(template, "deepseek-coder") {
            Some(PromptTemplateType::DeepseekCoder)
        } else if str_eq(template, "solar-instruct") {
            Some(PromptTemplateType::SolarInstruct)
        } else if str_eq(template, "phi-2-chat") {
            Some(PromptTemplateType::Phi2Chat)
        } else if str_eq(template, "phi-2-instruct") {
            Some(PromptTemplateType::Phi2Instruct)
        } else if str_eq(template, "gemma-instruct") {
            Some(PromptTemplateType::GemmaInstruct)
        } else {
            None
        };
        match found {
            Some(t) => {
                proof {
                    lemma_template_named(template@, t);
                }
                Ok(t)
            },
            None => Err(TemplateParseError::UnknownTemplate(String::from_str(template))),
        }
    }

    /// Reads an identifier as it is given on a command line: a canonical id,
    /// in capital or small letters. Aliases are not read here.
    pub fn from_flag(text: &str) -> (r: Result<PromptTemplateType, TemplateParseError>)
        ensures
            match r {
                Ok(t) => lowered_text(text@) == t.canonical_id(),
                Err(e) => e.rejected() == text@ && forall|t: PromptTemplateType|
                    lowered_text(text@) != t.canonical_id(),
            },
    {
        proof {
            lemma_canonical_ids_are_small();
        }
        if str_eq_ignore_case(text, "llama-2-chat") {
            Ok(PromptTemplateType::Llama2Chat)
        } else if str_eq_ignore_case(text, "mistral-instruct") {
            Ok(PromptTemplateType::MistralInstruct)
        } else if str_eq_ignore_case(text, "mistrallite") {
            Ok(PromptTemplateType::MistralLite)
        } else if str_eq_ignore_case(text, "openchat") {
            Ok(PromptTemplateType::OpenChat)
        } else if str_eq_ignore_case(text, "codellama-instruct") {
            Ok(PromptTemplateType::CodeLlama)
        } else if str_eq_ignore_case(text, "codellama-super-instruct") {
            Ok(PromptTemplateType::CodeLlamaSuper)
        } else if str_eq_ignore_case(text, "human-asistant") {
            Ok(PromptTemplateType::HumanAssistant)
        } else if str_eq_ignore_case(text, "vicuna-1.0-chat") {
            Ok(PromptTemplateType::VicunaChat)
        } else if str_eq_ignore_case(text, "vicuna-1.1-chat") {
            Ok(PromptTemplateType::Vicuna11Chat)
        } else if str_eq_ignore_case(text, "vicuna-llava") {
            Ok(PromptTemplateType::VicunaLlava)
        } else if str_eq_ignore_case(text, "chatml") {
            Ok(PromptTemplateType::ChatML)
        } else if str_eq_ignore_case(text, "baichuan-2") {
            Ok(PromptTemplateType::Baichuan2)
        } else if str_eq_ignore_case(text, "wizard-coder") {
            Ok(PromptTemplateType::WizardCoder)
        } else if str_eq_ignore_case(text, "zephyr") {
            Ok(PromptTemplateType::Zephyr)
        } else if str_eq_ignore_case(text, "stablelm-zephyr") {
            Ok(PromptTemplateType::StableLMZephyr)
        } else if str_eq_ignore_case(text, "intel-neural") {
            Ok(PromptTemplateType::IntelNeural)
        } else if str_eq_ignore_case(text, "deepseek-chat") {
            Ok(PromptTemplateType::DeepseekChat)
        } else if str_eq_ignore_case(text, "deepseek-coder") {
            Ok(PromptTemplateType::DeepseekCoder)
        } else if str_eq_ignore_case(text, "solar-instruct") {
            Ok(PromptTemplateType::SolarInstruct)
        } else if str_eq_ignore_case(text, "phi-2-chat") {
            Ok(PromptTemplateType::Phi2Chat)
        } else if str_eq_ignore_case(text, "phi-2-instruct") {
            Ok(PromptTemplateType::Phi2Instruct)
        } else if str_eq_ignore_case(text, "gemma-instruct") {
            Ok(PromptTemplateType::GemmaInstruct)
        } else {
            Err(TemplateParseError::UnknownTemplate(String::from_str(text)))
        }
    }

    /// The canonical id of this template.
    pub fn as_str(&self) -> (r: &'static str)
        ensures
            r@ == self.canonical_id(),
    {
        match self {
            PromptTemplateType::Llama2Chat => "llama-2-chat",
            PromptTemplateType::MistralInstruct => "mistral-instruct",
            PromptTemplateType::MistralLite => "mistrallite",
            PromptTemplateType::OpenChat => "openchat",
            PromptTemplateType::CodeLlama => "codellama-instruct",
            PromptTemplateType::CodeLlamaSuper => "codellama-super-instruct",
            PromptTemplateType::HumanAssistant => "human-asistant",
            PromptTemplateType::VicunaChat => "vicuna-1.0-chat",
            PromptTemplateType::Vicuna11Chat => "vicuna-1.1-chat",
            PromptTemplateType::VicunaLlava => "vicuna-llava",
            PromptTemplateType::ChatML => "chatml",
            PromptTemplateType::Baichuan2 => "baichuan-2",
            PromptTemplateType::WizardCoder => "wizard-coder",
            PromptTemplateType::Zephyr => "zephyr",
            PromptTemplateType::StableLMZephyr => "stablelm-zephyr",
            PromptTemplateType::IntelNeural => "intel-neural",
            PromptTemplateType::DeepseekChat => "deepseek-chat",
            PromptTemplateType::DeepseekCoder => "deepseek-coder",
            PromptTemplateType::SolarInstruct => "solar-instruct",
            PromptTemplateType::Phi2Chat => "phi-2-chat",
            PromptTemplateType::Phi2Instruct => "phi-2-instruct",
            PromptTemplateType::GemmaInstruct => "gemma-instruct",
        }
    }

    /// The canonical id of this template, as an owned string.
    pub fn to_string(&self) -> (r: String)
        ensures
            r@ == self.canonical_id(),
    {
        String::from_str(self.as_str())
    }
}

/// The templates of the selection list, in the order in which they are shown.
pub fn listed_templates() -> (r: Vec<PromptTemplateType>)
    ensures
        r@ == catalog(),
        r@.len() == CATALOG_LEN,
{
    let r = vec![
        PromptTemplateType::Llama2Chat,
        PromptTemplateType::MistralInstruct,
        PromptTemplateType::MistralLite,
        PromptTemplateType::OpenChat,
        PromptTemplateType::CodeLlama,
        PromptTemplateType::HumanAssistant,
        PromptTemplateType::VicunaChat,
        PromptTemplateType::Vicuna11Chat,
        PromptTemplateType::VicunaLlava,
        PromptTemplateType::ChatML,
        PromptTemplateType::Baichuan2,
        PromptTemplateType::WizardCoder,
        PromptTemplateType::Zephyr,
        PromptTemplateType::StableLMZephyr,
        PromptTemplateType::IntelNeural,
        PromptTemplateType::DeepseekChat,
        PromptTemplateType::DeepseekCoder,
        PromptTemplateType::SolarInstruct,
        PromptTemplateType::Phi2Chat,
        PromptTemplateType::Phi2Instruct,
    ];
    assert(r@ =~= catalog());
    r
}

/// The identifiers of the selection list, in the order in which they are shown.
pub fn listed_ids() -> (r: Vec<String>)
    ensures
        texts(r@) == catalog_ids(),
        r@.len() == CATALOG_LEN,
{
    let templates = listed_templates();
    let mut ids: Vec<String> = Vec::new();
    let mut i: usize = 0;
    while i < templates.len()
        invariant
            templates@ == catalog(),
            i <= templates.len(),
            ids.len() == i,
            forall|k: int| 0 <= k < i ==> (#[trigger] ids[k])@ == catalog()[k].canonical_id(),
        decreases templates.len() - i,
    {
        ids.push(templates[i].to_string());
        i = i + 1;
    }
    assert(texts(ids@) =~= catalog_ids());
    ids
}

/// Every template is read back from the identifier that it is written as.
pub proof fn lemma_canonical_id_round_trip(template: PromptTemplateType)
    ensures
        template_named(template.canonical_id()) == Some(template),
{
    lemma_template_named(template.canonical_id(), template);
}

/// An alias is read as its template, and is never what that template is
/// written as.
pub proof fn lemma_alias_is_read_not_written(id: Seq<char>, template: PromptTemplateType)
    requires
        is_alias_of(id, template),
    ensures
        template_named(id) == Some(template),
        template.canonical_id() != id,
{
    lemma_template_named(id, template);
    lemma_spellings();
}

/// The selection list has as many entries as its length says.
pub proof fn lemma_catalog_len()
    ensures
        catalog().len() == CATALOG_LEN,
        catalog_ids().len() == CATALOG_LEN,
{
}

/// Every entry of the selection list is read as the template that stands at
/// its place, and no template stands at two places.
pub proof fn lemma_catalog(i: int, j: int)
    requires
        0 <= i < CATALOG_LEN,
        0 <= j < CATALOG_LEN,
    ensures
        template_named(catalog_ids()[i]) == Some(catalog()[i]),
        catalog()[i] == catalog()[j] ==> i == j,
        catalog_ids()[i] == catalog_ids()[j] ==> i == j,
{
    lemma_template_named(catalog_ids()[i], catalog()[i]);
    lemma_template_named(catalog_ids()[j], catalog()[j]);
}

} // verus!
