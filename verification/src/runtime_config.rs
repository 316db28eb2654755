//! Toolbar settings: polish and denoise modes, the translate mode, and the
//! model menus (speech recognition, polishing language models, OCR).
use vstd::prelude::*;
use crate::config::{AppConfig, PolishMode};
use crate::text::{decimal_digits, decimal_string};
use crate::text::{chars_of, opt_seq, owned, push_chars, push_str, str_eq};

verus! {

/// Number of a polish mode.
pub open spec fn polish_mode_num(m: PolishMode) -> u8 {
    match m {
        PolishMode::Disabled => 0,
        PolishMode::FinalOnly => 1,
        PolishMode::Intermediate => 2,
    }
}

/// Polish mode of a number, if it names one.
pub open spec fn polish_mode_of(n: u8) -> Option<PolishMode> {
    if n == 0 {
        Some(PolishMode::Disabled)
    } else if n == 1 {
        Some(PolishMode::FinalOnly)
    } else if n == 2 {
        Some(PolishMode::Intermediate)
    } else {
        None
    }
}

/// Number of a polish mode (0 disabled, 1 final only, 2 intermediate).
pub fn polish_mode_to_u8(m: PolishMode) -> (n: u8)
    ensures
        n == polish_mode_num(m),
{
    match m {
        PolishMode::Disabled => 0,
        PolishMode::FinalOnly => 1,
        PolishMode::Intermediate => 2,
    }
}

/// Polish mode of a number; `None` above 2.
pub fn u8_to_polish_mode(n: u8) -> (m: Option<PolishMode>)
    ensures
        m == polish_mode_of(n),
{
    match n {
        0 => Some(PolishMode::Disabled),
        1 => Some(PolishMode::FinalOnly),
        2 => Some(PolishMode::Intermediate),
        _ => None,
    }
}

/// Converting a mode to its number and back gives the mode; exactly the
/// numbers 0, 1 and 2 name modes, and each converts back to itself.
pub proof fn law_polish_mode_round_trip(m: PolishMode, n: u8)
    ensures
        polish_mode_of(polish_mode_num(m)) == Some(m),
        polish_mode_of(n) is Some <==> n <= 2,
        polish_mode_of(n) matches Some(pm) ==> polish_mode_num(pm) == n,
{
}

/// Menu label of a model: cloud models (`source_type` 2) show their provider,
/// the others `本地` (local).
pub open spec fn label_spec(source_type: i64, category: Seq<char>, provider: Seq<char>, name: Seq<char>) -> Seq<char> {
    if source_type == 2 {
        provider + ":"@ + category + ":"@ + name
    } else {
        "本地:"@ + category + ":"@ + name
    }
}

/// Menu label of a model.
pub fn engine_label(source_type: i64, category: &str, provider: &str, name: &str) -> (s: String)
    ensures
        s@ == label_spec(source_type, category@, provider@, name@),
{
    let mut s = String::new();
    if source_type == 2 {
        push_str(&mut s, provider);
        push_str(&mut s, ":");
    } else {
        push_str(&mut s, "本地:");
    }
    push_str(&mut s, category);
    push_str(&mut s, ":");
    push_str(&mut s, name);
    s
}

/// The speech recognition engine always offered first.
pub const FALLBACK_ASR_ENGINE: &'static str = "zipformer-small";

/// Masked API key: empty stays empty, a key of at most eight characters
/// becomes eight asterisks, a longer key keeps its first and last four
/// characters around eight asterisks.
pub open spec fn mask_spec(key: Seq<char>) -> Seq<char> {
    if key.len() == 0 {
        Seq::empty()
    } else if key.len() <= 8 {
        "********"@
    } else {
        key.take(4) + "********"@ + key.skip(key.len() - 4)
    }
}

/// Masks an API key for display.
pub fn mask_key(key: &str) -> (r: String)
    ensures
        r@ == mask_spec(key@),
{
    let v = chars_of(key);
    if v.len() == 0 {
        return String::new();
    }
    if v.len() <= 8 {
        return owned("********");
    }
    let n = v.len();
    let mut r = String::new();
    push_chars(&mut r, &v, 0, 4);
    push_str(&mut r, "********");
    push_chars(&mut r, &v, n - 4, n);
    assert(v@.subrange(0, 4) =~= v@.take(4));
    assert(v@.subrange(n - 4, n as int) =~= v@.skip(n - 4));
    r
}

/// A speech recognition engine as the model store lists it (`category` is
/// the category's label).
pub struct EngineInfo {
    pub id: i64,
    pub name: String,
    pub provider: String,
    pub category: String,
    pub source_type: i64,
    pub source: String,
    pub secret_key: String,
    pub is_streaming: bool,
    pub is_thinking: bool,
    pub is_enabled: bool,
}

/// A language model as the model store lists it.
pub struct LlmModelInfo {
    pub id: i64,
    pub model_name: String,
    pub provider: String,
    pub category: String,
    pub source_type: i64,
    pub source: String,
    pub secret_key: String,
    pub is_streaming: bool,
    pub is_thinking: bool,
    pub is_enabled: bool,
}

/// An OCR model as the model store lists it.
pub struct OcrModelInfo {
    pub model_name: String,
    pub description: String,
    pub source_type: i64,
    pub is_enabled: bool,
}

/// Menu entry of a speech recognition engine.
pub struct EngineOption {
    pub id: i64,
    pub name: String,
    pub provider: String,
    pub category: String,
    pub current: bool,
    pub source_type: i64,
    pub label: String,
    pub source: String,
    pub secret_key: String,
    pub is_streaming: bool,
    pub is_thinking: bool,
}

/// Menu entry of a polishing language model.
pub struct LlmOption {
    pub id: i64,
    pub name: String,
    pub provider: String,
    pub category: String,
    pub source_type: i64,
    pub current: bool,
    pub label: String,
    pub source: String,
    pub secret_key: String,
    pub is_streaming: bool,
    pub is_thinking: bool,
}

/// Menu entry of an OCR model.
pub struct OcrOption {
    pub name: String,
    pub provider: String,
    pub label: String,
    pub current: bool,
    pub source_type: i64,
}

/// State shown by the toolbar.
pub struct ToolbarState {
    pub asr_engine: String,
    pub polish_mode: u8,
    pub hide_toolbar: bool,
    pub denoise_mode: u8,
    pub polish_llm_valid: bool,
    pub edit_shortcut: String,
    pub translate_mode: String,
}

/// Whether some engine of `es` is the enabled one.
pub open spec fn any_enabled(es: Seq<EngineInfo>) -> bool {
    exists|i: int| 0 <= i < es.len() && #[trigger] es[i].is_enabled
}

/// Engines from the store, without any that has the fallback engine's name.
pub open spec fn asr_kept(es: Seq<EngineInfo>) -> Seq<EngineInfo>
    decreases es.len(),
{
    if es.len() == 0 {
        Seq::empty()
    } else if es.last().name@ == FALLBACK_ASR_ENGINE@ {
        asr_kept(es.drop_last())
    } else {
        asr_kept(es.drop_last()).push(es.last())
    }
}

/// The menu entry of an engine from the store.
pub open spec fn asr_option_of(o: EngineOption, e: EngineInfo) -> bool {
    &&& o.id == e.id
    &&& o.current == e.is_enabled
    &&& o.name@ == e.name@
    &&& o.provider@ == e.provider@
    &&& o.category@ == e.category@
    &&& o.source_type == e.source_type
    &&& o.label@ == label_spec(e.source_type, e.category@, e.provider@, e.name@)
    &&& o.source@ == e.source@
    &&& o.secret_key@ == mask_spec(e.secret_key@)
    &&& o.is_streaming == e.is_streaming
    &&& o.is_thinking == e.is_thinking
}

/// The fallback engine's menu entry: built in, streaming, current when no
/// engine of the store is enabled.
pub open spec fn asr_fallback_option(o: EngineOption, has_active: bool) -> bool {
    &&& o.id == 0
    &&& o.name@ == FALLBACK_ASR_ENGINE@
    &&& o.provider@ == "local"@
    &&& o.category@ == "zipformer"@
    &&& o.source_type == 0
    &&& o.current == !has_active
    &&& o.label@ == label_spec(0, "zipformer"@, "local"@, FALLBACK_ASR_ENGINE@)
    &&& o.source@.len() == 0
    &&& o.secret_key@.len() == 0
    &&& o.is_streaming
    &&& !o.is_thinking
}

fn any_engine_enabled(es: &Vec<EngineInfo>) -> (b: bool)
    ensures
        b == any_enabled(es@),
{
    let mut i: usize = 0;
    while i < es.len()
        invariant
            i <= es@.len(),
            forall|k: int| 0 <= k < i ==> !(#[trigger] es@[k]).is_enabled,
        decreases es@.len() - i,
    {
        if es[i].is_enabled {
            assert(es@[i as int].is_enabled);
            return true;
        }
        i = i + 1;
    }
    false
}

/// The speech recognition menu: the fallback engine first, then the store's
/// engines (one with the fallback's name is not listed twice); the enabled
/// engine is current, the fallback when none is.
pub fn build_asr_options(engines: Vec<EngineInfo>) -> (r: Vec<EngineOption>)
    ensures
        r@.len() == 1 + asr_kept(engines@).len(),
        asr_fallback_option(r@[0], any_enabled(engines@)),
        forall|k: int| 0 <= k < asr_kept(engines@).len() ==> asr_option_of(#[trigger] r@[k + 1], asr_kept(engines@)[k]),
        forall|k: int| 1 <= k < r@.len() ==> (#[trigger] r@[k]).name@ != FALLBACK_ASR_ENGINE@,
        forall|e: int|
            single_enabled(engines@, e) && engines@[e].name@ != FALLBACK_ASR_ENGINE@ ==> one_current_is(
                r@,
                #[trigger] engines@[e],
            ),
{
    let has_active = any_engine_enabled(&engines);
    let mut options: Vec<EngineOption> = Vec::new();
    options.push(EngineOption {
        id: 0,
        name: owned(FALLBACK_ASR_ENGINE),
        provider: owned("local"),
        category: owned("zipformer"),
        source_type: 0,
        current: !has_active,
        label: engine_label(0, "zipformer", "local", FALLBACK_ASR_ENGINE),
        source: String::new(),
        secret_key: String::new(),
        is_streaming: true,
        is_thinking: false,
    });
    let mut i: usize = 0;
    while i < engines.len()
        invariant
            i <= engines@.len(),
            options@.len() == 1 + asr_kept(engines@.take(i as int)).len(),
            asr_fallback_option(options@[0], has_active),
            forall|k: int| 0 <= k < asr_kept(engines@.take(i as int)).len() ==> asr_option_of(
                #[trigger] options@[k + 1],
                asr_kept(engines@.take(i as int))[k],
            ),
        decreases engines@.len() - i,
    {
        proof {
            assert(engines@.take(i + 1).drop_last() =~= engines@.take(i as int));
            assert(engines@.take(i + 1).last() == engines@[i as int]);
        }
        let e = &engines[i];
        if !str_eq(e.name.as_str(), FALLBACK_ASR_ENGINE) {
            let o = EngineOption {
                id: e.id,
                current: e.is_enabled,
                name: owned(e.name.as_str()),
                provider: owned(e.provider.as_str()),
                category: owned(e.category.as_str()),
                source_type: e.source_type,
                label: engine_label(
                    e.source_type,
                    e.category.as_str(),
                    e.provider.as_str(),
                    e.name.as_str(),
                ),
                source: owned(e.source.as_str()),
                secret_key: mask_key(e.secret_key.as_str()),
                is_streaming: e.is_streaming,
                is_thinking: e.is_thinking,
            };
            options.push(o);
        }
        i = i + 1;
    }
    assert(engines@.take(engines@.len() as int) =~= engines@);
    proof {
        let kept = asr_kept(engines@);
        lemma_kept_names(engines@);
        assert forall|k: int| 1 <= k < options@.len() implies (#[trigger] options@[k]).name@ != FALLBACK_ASR_ENGINE@ by {
            assert(asr_option_of(options@[(k - 1) + 1], kept[k - 1]));
        }
        assert forall|e: int|
            single_enabled(engines@, e) && engines@[e].name@ != FALLBACK_ASR_ENGINE@ implies one_current_is(
                options@,
                #[trigger] engines@[e],
            ) by {
            let k = lemma_kept_one_enabled(engines@, e);
            assert(engines@[e].is_enabled);
            assert(any_enabled(engines@));
            assert(asr_option_of(options@[k + 1], kept[k]));
            assert forall|j: int| 0 <= j < options@.len() && j != k + 1 implies !(#[trigger] options@[j]).current by {
                if j > 0 {
                    assert(asr_option_of(options@[(j - 1) + 1], kept[j - 1]));
                }
            }
            assert(options@[k + 1].current);
        }
    }
    options
}

/// `e` is the one enabled engine of `es`.
pub open spec fn single_enabled(es: Seq<EngineInfo>, e: int) -> bool {
    &&& 0 <= e < es.len()
    &&& es[e].is_enabled
    &&& forall|j: int| 0 <= j < es.len() && j != e ==> !(#[trigger] es[j]).is_enabled
}

/// Exactly one entry of `opts` is current, and it carries `e`'s name and
/// provider.
pub open spec fn one_current_is(opts: Seq<EngineOption>, e: EngineInfo) -> bool {
    exists|k: int|
        #![trigger opts[k]]
        0 <= k < opts.len() && opts[k].current && opts[k].name@ == e.name@ && opts[k].provider@
            == e.provider@ && forall|j: int| 0 <= j < opts.len() && j != k ==> !(#[trigger] opts[j]).current
}

proof fn lemma_kept_names(s: Seq<EngineInfo>)
    ensures
        forall|k: int| 0 <= k < asr_kept(s).len() ==> (#[trigger] asr_kept(s)[k]).name@ != FALLBACK_ASR_ENGINE@,
    decreases s.len(),
{
    if s.len() > 0 {
        let p = s.drop_last();
        lemma_kept_names(p);
        if s.last().name@ != FALLBACK_ASR_ENGINE@ {
            assert forall|k: int| 0 <= k < asr_kept(s).len() implies (#[trigger] asr_kept(s)[k]).name@
                != FALLBACK_ASR_ENGINE@ by {
                if k < asr_kept(p).len() {
                    assert(asr_kept(s)[k] == asr_kept(p)[k]);
                }
            }
        }
    }
}

proof fn lemma_kept_none_enabled(s: Seq<EngineInfo>)
    requires
        forall|j: int| 0 <= j < s.len() ==> !(#[trigger] s[j]).is_enabled,
    ensures
        forall|k: int| 0 <= k < asr_kept(s).len() ==> !(#[trigger] asr_kept(s)[k]).is_enabled,
    decreases s.len(),
{
    if s.len() > 0 {
        let p = s.drop_last();
        lemma_kept_none_enabled(p);
        if s.last().name@ != FALLBACK_ASR_ENGINE@ {
            assert forall|k: int| 0 <= k < asr_kept(s).len() implies !(#[trigger] asr_kept(s)[k]).is_enabled by {
                if k < asr_kept(p).len() {
                    assert(asr_kept(s)[k] == asr_kept(p)[k]);
                }
            }
        }
    }
}

proof fn lemma_kept_one_enabled(s: Seq<EngineInfo>, e: int) -> (k: int)
    requires
        single_enabled(s, e),
        s[e].name@ != FALLBACK_ASR_ENGINE@,
    ensures
        0 <= k < asr_kept(s).len(),
        asr_kept(s)[k] == s[e],
        forall|j: int| 0 <= j < asr_kept(s).len() && j != k ==> !(#[trigger] asr_kept(s)[j]).is_enabled,
    decreases s.len(),
{
    let p = s.drop_last();
    if e == s.len() - 1 {
        assert forall|j: int| 0 <= j < p.len() implies !(#[trigger] p[j]).is_enabled by {
            assert(p[j] == s[j]);
        }
        lemma_kept_none_enabled(p);
        let k = asr_kept(p).len() as int;
        assert forall|j: int| 0 <= j < asr_kept(s).len() && j != k implies !(#[trigger] asr_kept(s)[j]).is_enabled by {
            assert(asr_kept(s)[j] == asr_kept(p)[j]);
        }
        k
    } else {
        assert forall|j: int| 0 <= j < p.len() && j != e implies !(#[trigger] p[j]).is_enabled by {
            assert(p[j] == s[j]);
        }
        let k = lemma_kept_one_enabled(p, e);
        if s.last().name@ != FALLBACK_ASR_ENGINE@ {
            assert(asr_kept(s)[k] == asr_kept(p)[k]);
            assert forall|j: int| 0 <= j < asr_kept(s).len() && j != k implies !(#[trigger] asr_kept(s)[j]).is_enabled by {
                if j < asr_kept(p).len() {
                    assert(asr_kept(s)[j] == asr_kept(p)[j]);
                } else {
                    assert(asr_kept(s)[j] == s[s.len() - 1]);
                }
            }
        }
        k
    }
}

/// With exactly one engine of the store enabled, and that engine not named
/// like the fallback, exactly one of the menu's engines is enabled and it is
/// that engine, none of them carries the fallback's name, and the fallback
/// entry is not current.
pub proof fn law_enabled_engine_is_the_one_current(engines: Seq<EngineInfo>, e: int)
    requires
        single_enabled(engines, e),
        engines[e].name@ != FALLBACK_ASR_ENGINE@,
    ensures
        any_enabled(engines),
        exists|k: int|
            #![trigger asr_kept(engines)[k]]
            0 <= k < asr_kept(engines).len() && asr_kept(engines)[k] == engines[e] && forall|j: int|
                0 <= j < asr_kept(engines).len() && j != k ==> !(#[trigger] asr_kept(engines)[j]).is_enabled,
        forall|k: int| 0 <= k < asr_kept(engines).len() ==> (#[trigger] asr_kept(engines)[k]).name@ != FALLBACK_ASR_ENGINE@,
{
    let k = lemma_kept_one_enabled(engines, e);
    lemma_kept_names(engines);
    assert(asr_kept(engines)[k] == engines[e]);
}

/// `build_asr_options` for the settings window.
pub fn build_asr_options_public(engines: Vec<EngineInfo>) -> (r: Vec<EngineOption>)
    ensures
        r@.len() == 1 + asr_kept(engines@).len(),
        asr_fallback_option(r@[0], any_enabled(engines@)),
        forall|k: int| 0 <= k < asr_kept(engines@).len() ==> asr_option_of(#[trigger] r@[k + 1], asr_kept(engines@)[k]),
        forall|k: int| 1 <= k < r@.len() ==> (#[trigger] r@[k]).name@ != FALLBACK_ASR_ENGINE@,
        forall|e: int|
            single_enabled(engines@, e) && engines@[e].name@ != FALLBACK_ASR_ENGINE@ ==> one_current_is(
                r@,
                #[trigger] engines@[e],
            ),
{
    build_asr_options(engines)
}

/// Whether some language model of `ms` is the enabled one.
pub open spec fn any_llm_enabled(ms: Seq<LlmModelInfo>) -> bool {
    exists|i: int| 0 <= i < ms.len() && #[trigger] ms[i].is_enabled
}

/// The menu entry of a language model.
pub open spec fn llm_option_of(o: LlmOption, m: LlmModelInfo) -> bool {
    &&& o.id == m.id
    &&& o.current == m.is_enabled
    &&& o.name@ == m.model_name@
    &&& o.provider@ == m.provider@
    &&& o.category@ == m.category@
    &&& o.source_type == m.source_type
    &&& o.label@ == label_spec(m.source_type, m.category@, m.provider@, m.model_name@)
    &&& o.source@ == m.source@
    &&& o.secret_key@ == mask_spec(m.secret_key@)
    &&& o.is_streaming == m.is_streaming
    &&& o.is_thinking == m.is_thinking
}

/// The "no model" entry: empty name, cloud placeholder type, current when no
/// model is enabled.
pub open spec fn llm_none_option(o: LlmOption, has_active: bool) -> bool {
    &&& o.id == 0
    &&& o.name@.len() == 0
    &&& o.provider@.len() == 0
    &&& o.category@.len() == 0
    &&& o.source_type == 2
    &&& o.current == !has_active
    &&& o.label@ == "不选择模型"@
    &&& o.source@.len() == 0
    &&& o.secret_key@.len() == 0
    &&& !o.is_streaming
    &&& !o.is_thinking
}

/// The polishing model menu: "no model" first, then every model of the store.
pub fn build_llm_options(llms: Vec<LlmModelInfo>) -> (r: Vec<LlmOption>)
    ensures
        r@.len() == 1 + llms@.len(),
        llm_none_option(r@[0], any_llm_enabled(llms@)),
        forall|k: int| 0 <= k < llms@.len() ==> llm_option_of(#[trigger] r@[k + 1], llms@[k]),
{
    let mut has_active = false;
    let mut j: usize = 0;
    while j < llms.len()
        invariant
            j <= llms@.len(),
            has_active == exists|k: int| 0 <= k < j && #[trigger] llms@[k].is_enabled,
        decreases llms@.len() - j,
    {
        if llms[j].is_enabled {
            has_active = true;
        }
        j = j + 1;
    }
    let mut options: Vec<LlmOption> = Vec::new();
    options.push(LlmOption {
        id: 0,
        name: String::new(),
        provider: String::new(),
        category: String::new(),
        source_type: 2,
        current: !has_active,
        label: owned("不选择模型"),
        source: String::new(),
        secret_key: String::new(),
        is_streaming: false,
        is_thinking: false,
    });
    let mut i: usize = 0;
    while i < llms.len()
        invariant
            i <= llms@.len(),
            options@.len() == 1 + i,
            llm_none_option(options@[0], any_llm_enabled(llms@)),
            forall|k: int| 0 <= k < i ==> llm_option_of(#[trigger] options@[k + 1], llms@[k]),
        decreases llms@.len() - i,
    {
        let m = &llms[i];
        options.push(LlmOption {
            id: m.id,
            current: m.is_enabled,
            label: engine_label(
                m.source_type,
                m.category.as_str(),
                m.provider.as_str(),
                m.model_name.as_str(),
            ),
            name: owned(m.model_name.as_str()),
            provider: owned(m.provider.as_str()),
            category: owned(m.category.as_str()),
            source_type: m.source_type,
            source: owned(m.source.as_str()),
            secret_key: mask_key(m.secret_key.as_str()),
            is_streaming: m.is_streaming,
            is_thinking: m.is_thinking,
        });
        i = i + 1;
    }
    options
}

/// `build_llm_options` for the settings window.
pub fn build_llm_options_public(llms: Vec<LlmModelInfo>) -> (r: Vec<LlmOption>)
    ensures
        r@.len() == 1 + llms@.len(),
        llm_none_option(r@[0], any_llm_enabled(llms@)),
        forall|k: int| 0 <= k < llms@.len() ==> llm_option_of(#[trigger] r@[k + 1], llms@[k]),
{
    build_llm_options(llms)
}

/// The menu entry of an OCR model: labelled by its description, or by its
/// name when it has none.
pub open spec fn ocr_option_of(o: OcrOption, m: OcrModelInfo) -> bool {
    &&& o.current == m.is_enabled
    &&& o.label@ == (if m.description@.len() == 0 {
        m.model_name@
    } else {
        m.description@
    })
    &&& o.name@ == m.model_name@
    &&& o.provider@ == "local"@
    &&& o.source_type == m.source_type
}

/// The OCR model menu: every model of the store (there is no "none" entry).
pub fn build_ocr_options(ocrs: Vec<OcrModelInfo>) -> (r: Vec<OcrOption>)
    ensures
        r@.len() == ocrs@.len(),
        forall|k: int| 0 <= k < ocrs@.len() ==> ocr_option_of(#[trigger] r@[k], ocrs@[k]),
{
    let mut options: Vec<OcrOption> = Vec::new();
    let mut i: usize = 0;
    while i < ocrs.len()
        invariant
            i <= ocrs@.len(),
            options@.len() == i,
            forall|k: int| 0 <= k < i ==> ocr_option_of(#[trigger] options@[k], ocrs@[k]),
        decreases ocrs@.len() - i,
    {
        let m = &ocrs[i];
        let label = if m.description.as_str().is_empty() {
            owned(m.model_name.as_str())
        } else {
            owned(m.description.as_str())
        };
        options.push(OcrOption {
            current: m.is_enabled,
            label,
            name: owned(m.model_name.as_str()),
            provider: owned("local"),
            source_type: m.source_type,
        });
        i = i + 1;
    }
    options
}

/// `build_ocr_options` for the settings window.
pub fn build_ocr_options_public(ocrs: Vec<OcrModelInfo>) -> (r: Vec<OcrOption>)
    ensures
        r@.len() == ocrs@.len(),
        forall|k: int| 0 <= k < ocrs@.len() ==> ocr_option_of(#[trigger] r@[k], ocrs@[k]),
{
    build_ocr_options(ocrs)
}

/// Translate modes: manual, or automatic after 4, 8 or 12 seconds.
pub open spec fn valid_translate_mode(mode: Seq<char>) -> bool {
    mode == "manual"@ || mode == "4s"@ || mode == "8s"@ || mode == "12s"@
}

/// Whether a translate mode is one of `manual`, `4s`, `8s`, `12s`.
pub fn validate_translate_mode(mode: &str) -> (b: bool)
    ensures
        b == valid_translate_mode(mode@),
{
    str_eq(mode, "manual") || str_eq(mode, "4s") || str_eq(mode, "8s") || str_eq(mode, "12s")
}

/// The stored translate mode if it is valid, else `manual`.
pub open spec fn resolved_translate_mode(raw: Option<Seq<char>>) -> Seq<char> {
    match raw {
        Some(m) => if valid_translate_mode(m) {
            m
        } else {
            "manual"@
        },
        None => "manual"@,
    }
}

/// The translate mode to use, from the stored value.
pub fn resolve_translate_mode(raw: Option<String>) -> (r: String)
    ensures
        r@ == resolved_translate_mode(opt_seq(raw)),
{
    match raw {
        Some(m) => if validate_translate_mode(m.as_str()) {
            m
        } else {
            owned("manual")
        },
        None => owned("manual"),
    }
}

/// Sets the polish mode from its number; numbers above 2 are refused and
/// change nothing.
pub fn set_polish_mode(cfg: &mut AppConfig, mode: u8) -> (r: Result<(), String>)
    ensures
        polish_mode_of(mode) matches Some(pm) ==> r is Ok && final(cfg)@ == (
        crate::config::AppConfigView { polish_mode: pm, ..old(cfg)@ }),
        polish_mode_of(mode) is None ==> (r matches Err(e) && e@ == "polish_mode="@
            + decimal_digits(mode as nat) + " 非法（应为 0/1/2）"@) && final(cfg)@ == old(cfg)@,
{
    match u8_to_polish_mode(mode) {
        Some(pm) => {
            cfg.polish_mode = pm;
            Ok(())
        },
        None => {
            let mut e = String::new();
            push_str(&mut e, "polish_mode=");
            let d = decimal_string(mode as usize);
            push_str(&mut e, d.as_str());
            push_str(&mut e, " 非法（应为 0/1/2）");
            Err(e)
        },
    }
}

/// Sets the denoise mode (0 none, 1 light, 2 deep); values above 2 are
/// refused and change nothing.
pub fn set_denoise_mode(cfg: &mut AppConfig, mode: u8) -> (r: Result<(), String>)
    ensures
        mode <= 2 ==> r is Ok && final(cfg)@ == (crate::config::AppConfigView {
            denoise_mode: mode,
            ..old(cfg)@
        }),
        mode > 2 ==> (r matches Err(e) && e@ == "denoise_mode="@ + decimal_digits(mode as nat)
            + " 非法（应为 0/1/2）"@) && final(cfg)@ == old(cfg)@,
{
    if mode > 2 {
        let mut e = String::new();
        push_str(&mut e, "denoise_mode=");
        let d = decimal_string(mode as usize);
        push_str(&mut e, d.as_str());
        push_str(&mut e, " 非法（应为 0/1/2）");
        return Err(e);
    }
    cfg.denoise_mode = mode;
    Ok(())
}

/// Checks a translate mode before it is stored.
pub fn set_translate_mode(mode: &str) -> (r: Result<(), String>)
    ensures
        valid_translate_mode(mode@) ==> r is Ok,
        !valid_translate_mode(mode@) ==> (r matches Err(e) && e@ == "translate_mode='"@ + mode@
            + "' 非法（应为 manual/4s/8s/12s）"@),
{
    if validate_translate_mode(mode) {
        Ok(())
    } else {
        let mut e = String::new();
        push_str(&mut e, "translate_mode='");
        push_str(&mut e, mode);
        push_str(&mut e, "' 非法（应为 manual/4s/8s/12s）");
        Err(e)
    }
}

/// The toolbar's state from the settings, the active recognition engine's
/// name (none: empty), whether a polishing model is active, and the stored
/// translate mode.
pub fn toolbar_state(
    cfg: &AppConfig,
    active_asr: Option<String>,
    polish_llm_valid: bool,
    stored_translate_mode: Option<String>,
) -> (s: ToolbarState)
    ensures
        s.asr_engine@ == (match active_asr {
            Some(a) => a@,
            None => Seq::empty(),
        }),
        s.polish_mode == polish_mode_num(cfg.polish_mode),
        s.hide_toolbar == cfg.hide_toolbar,
        s.denoise_mode == cfg.denoise_mode,
        s.polish_llm_valid == polish_llm_valid,
        s.edit_shortcut@ == cfg.edit_shortcut@,
        s.translate_mode@ == resolved_translate_mode(opt_seq(stored_translate_mode)),
{
    ToolbarState {
        asr_engine: match active_asr {
            Some(a) => a,
            None => String::new(),
        },
        polish_mode: polish_mode_to_u8(cfg.polish_mode),
        hide_toolbar: cfg.hide_toolbar,
        denoise_mode: cfg.denoise_mode,
        polish_llm_valid,
        edit_shortcut: owned(cfg.edit_shortcut.as_str()),
        translate_mode: resolve_translate_mode(stored_translate_mode),
    }
}

} // verus!
