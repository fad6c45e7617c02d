//! The chat widget's pickers for the advisor: the advisor model picker and
//! the reasoning effort popup for a chosen model.

use vstd::prelude::*;
use vstd::string::*;

use crate::effort::{effort_label, ReasoningEffort};
use crate::text::starts_with;

verus! {

/// The identifier of the advisor model picker view.
pub open spec fn advisor_view_id() -> Seq<char> {
    "advisor-model-selection"@
}

pub open spec fn startup_pending_message() -> Seq<char> {
    "Advisor selection is disabled until startup completes."@
}

pub open spec fn no_models_message() -> Seq<char> {
    "No advisor models are available right now."@
}

/// A model that the catalog offers.
#[derive(Debug)]
pub struct ModelPreset {
    pub model: String,
    pub display_name: String,
    pub description: String,
    pub show_in_picker: bool,
    pub default_reasoning_effort: ReasoningEffort,
    pub supported_reasoning_efforts: Vec<ReasoningEffort>,
}

/// The advisor's model and effort as the configuration holds them.
#[derive(Debug)]
pub struct AdvisorSelection {
    pub model: Option<String>,
    pub reasoning_effort: Option<ReasoningEffort>,
}

/// An event that the widget sends to the application.
#[allow(inconsistent_fields)]
#[derive(Debug)]
pub enum AppEvent {
    /// Open the reasoning effort popup for a model.
    OpenAdvisorReasoningPopup { model: ModelPreset },
    /// Store the advisor's model and effort.
    PersistAdvisorSelection { model: String, effort: Option<ReasoningEffort> },
    /// Fetch the model catalog again; the answer carries `request_id`.
    FetchModels { request_id: u128 },
}

/// One choice of a selection view and what choosing it does.
#[derive(Debug)]
pub struct SelectionItem {
    pub name: String,
    pub description: Option<String>,
    pub is_current: bool,
    pub action: AppEvent,
    pub dismiss_on_select: bool,
    pub dismiss_parent_on_child_accept: bool,
}

/// The header above a model menu.
#[derive(Debug)]
pub struct MenuHeader {
    pub title: String,
    pub subtitle: String,
}

/// A selection view that the widget shows; `model_ids` are the models that
/// a model selection view lists, and absent for other views.
#[derive(Debug)]
pub struct SelectionView {
    pub view_id: Option<String>,
    pub title: Option<String>,
    pub header: Option<MenuHeader>,
    pub items: Vec<SelectionItem>,
    pub model_ids: Option<Vec<String>>,
}

/// The part of the chat widget that the advisor pickers read and change.
#[derive(Debug)]
pub struct ChatWidget {
    pub session_configured: bool,
    pub advisor: AdvisorSelection,
    /// The request whose model catalog answer the model popup awaits.
    pub model_popup_request_id: Option<u128>,
    /// The info messages added to the transcript, oldest first.
    pub info_messages: Vec<String>,
    /// The selection views shown, oldest first.
    pub views: Vec<SelectionView>,
    /// The events sent to the application, oldest first.
    pub events: Vec<AppEvent>,
}

/// Whether `m` is one of the automatic model choices, which the advisor
/// cannot take.
pub open spec fn is_auto_model(m: Seq<char>) -> bool {
    "codex-auto-"@.is_prefix_of(m)
}

/// Whether the advisor model picker lists `p`.
pub open spec fn pickable(p: ModelPreset) -> bool {
    p.show_in_picker && !is_auto_model(p.model@)
}

/// The presets that the advisor model picker lists, in order.
pub open spec fn pickable_presets(ps: Seq<ModelPreset>) -> Seq<ModelPreset>
    decreases ps.len(),
{
    if ps.len() == 0 {
        Seq::empty()
    } else if pickable(ps.last()) {
        pickable_presets(ps.drop_last()).push(ps.last())
    } else {
        pickable_presets(ps.drop_last())
    }
}

/// Whether `model` is the configured one.
pub open spec fn is_configured_model(current: Option<String>, model: Seq<char>) -> bool {
    current matches Some(c) && c@ == model
}

/// Whether `item` is the advisor model picker's item for `p`: named after
/// it, described by it when it has a description, current when it is the
/// configured model, opening the effort popup for it, and keeping the
/// picker open until a choice in that popup is accepted.
pub open spec fn is_model_item(item: SelectionItem, p: ModelPreset, current: Option<String>) -> bool {
    &&& item.name@ == p.display_name@
    &&& item.description == (if p.description@.len() == 0 {
        None
    } else {
        Some(p.description)
    })
    &&& item.is_current == is_configured_model(current, p.model@)
    &&& item.action == AppEvent::OpenAdvisorReasoningPopup { model: p }
    &&& !item.dismiss_on_select
    &&& item.dismiss_parent_on_child_accept
}

/// Whether `v` is the advisor model picker for `presets` as found.
pub open spec fn is_model_picker(v: SelectionView, presets: Seq<ModelPreset>, current: Option<String>) -> bool {
    let listed = pickable_presets(presets);
    &&& (v.view_id matches Some(id) && id@ == advisor_view_id())
    &&& (v.title matches Some(t) && t@ == "Advisor"@)
    &&& (v.header matches Some(h) && h.title@ == "Select Advisor Model"@ && h.subtitle@.len() == 0)
    &&& (v.model_ids matches Some(ids) && ids@ == listed.map_values(|p: ModelPreset| p.model))
    &&& v.items@.len() == listed.len()
    &&& forall|i: int| 0 <= i < listed.len() ==> is_model_item(#[trigger] v.items@[i], listed[i], current)
}

/// Whether `after` holds one more message than `before`, `msg`.
pub open spec fn one_more_message(before: Seq<String>, after: Seq<String>, msg: Seq<char>) -> bool {
    &&& after.len() == before.len() + 1
    &&& after.drop_last() == before
    &&& after.last()@ == msg
}

/// Whether `after` holds one more view than `before`.
pub open spec fn one_more_view(before: Seq<SelectionView>, after: Seq<SelectionView>) -> bool {
    &&& after.len() == before.len() + 1
    &&& after.drop_last() == before
}

/// How opening the advisor model picker with `presets` changes the widget's
/// messages and views: with no model to list, an info message says so;
/// else the picker is shown.
pub open spec fn model_picker_opened(before: ChatWidget, presets: Seq<ModelPreset>, after: ChatWidget) -> bool {
    if pickable_presets(presets).len() == 0 {
        &&& one_more_message(before.info_messages@, after.info_messages@, no_models_message())
        &&& after.views@ == before.views@
    } else {
        &&& after.info_messages@ == before.info_messages@
        &&& one_more_view(before.views@, after.views@)
        &&& is_model_picker(after.views@.last(), presets, before.advisor.model)
    }
}

/// Whether `p` is the advisor model picker's choice.
pub fn is_pickable(p: &ModelPreset) -> (b: bool)
    ensures
        b == pickable(*p),
{
    p.show_in_picker && !starts_with(p.model.as_str(), "codex-auto-")
}

/// Whether `model` is the configured one.
fn configured_model_is(current: &Option<String>, model: &String) -> (b: bool)
    ensures
        b == is_configured_model(*current, model@),
{
    match current {
        Some(c) => *c == *model,
        None => false,
    }
}

impl ChatWidget {
    /// A widget with the given session state and advisor selection, which
    /// has shown nothing and sent nothing yet.
    pub fn new(session_configured: bool, advisor: AdvisorSelection) -> (w: ChatWidget)
        ensures
            w.session_configured == session_configured,
            w.advisor == advisor,
            w.model_popup_request_id is None,
            w.info_messages@.len() == 0,
            w.views@.len() == 0,
            w.events@.len() == 0,
    {
        ChatWidget {
            session_configured,
            advisor,
            model_popup_request_id: None,
            info_messages: Vec::new(),
            views: Vec::new(),
            events: Vec::new(),
        }
    }

    /// Whether the session has started, so that the advisor can be chosen.
    pub fn is_session_configured(&self) -> (b: bool)
        ensures
            b == self.session_configured,
    {
        self.session_configured
    }

    /// Adds an info message to the transcript.
    pub fn add_info_message(&mut self, message: String)
        ensures
            final(self).info_messages@ == old(self).info_messages@.push(message),
            final(self).session_configured == old(self).session_configured,
            final(self).advisor == old(self).advisor,
            final(self).model_popup_request_id == old(self).model_popup_request_id,
            final(self).views@ == old(self).views@,
            final(self).events@ == old(self).events@,
    {
        self.info_messages.push(message);
    }

    /// Opens the advisor model picker listing `presets`, the models the
    /// picker shows: each preset shown in pickers that is not an automatic
    /// model. With none, an info message says that no model is available.
    pub fn open_advisor_picker_with_presets(&mut self, presets: Vec<ModelPreset>)
        ensures
            model_picker_opened(*old(self), presets@, *final(self)),
            final(self).session_configured == old(self).session_configured,
            final(self).advisor == old(self).advisor,
            final(self).model_popup_request_id == old(self).model_popup_request_id,
            final(self).events@ == old(self).events@,
    {
        let ghost all = presets@;
        let n = presets.len();
        let mut rest = presets;
        let mut model_ids: Vec<String> = Vec::new();
        let mut items: Vec<SelectionItem> = Vec::new();
        let mut k: usize = 0;
        assert(all.take(0) =~= Seq::<ModelPreset>::empty());
        assert(all.subrange(0, n as int) =~= all);
        while k < n
            invariant
                n == all.len(),
                k <= n,
                rest@ == all.subrange(k as int, n as int),
                model_ids@ == pickable_presets(all.take(k as int)).map_values(
                    |p: ModelPreset| p.model,
                ),
                items@.len() == pickable_presets(all.take(k as int)).len(),
                forall|i: int|
                    0 <= i < items@.len() ==> is_model_item(
                        #[trigger] items@[i],
                        pickable_presets(all.take(k as int))[i],
                        self.advisor.model,
                    ),
            decreases n - k,
        {
            let ghost listed = pickable_presets(all.take(k as int));
            let preset = rest.remove(0);
            assert(preset == all[k as int]);
            assert(all.take(k + 1).drop_last() =~= all.take(k as int));
            assert(all.take(k + 1).last() == all[k as int]);
            assert(rest@ =~= all.subrange(k + 1, n as int));
            if is_pickable(&preset) {
                let selected = configured_model_is(&self.advisor.model, &preset.model);
                let description = if preset.description.as_str().unicode_len() == 0 {
                    None
                } else {
                    Some(preset.description.clone())
                };
                model_ids.push(preset.model.clone());
                let name = preset.display_name.clone();
                items.push(
                    SelectionItem {
                        name,
                        description,
                        is_current: selected,
                        action: AppEvent::OpenAdvisorReasoningPopup { model: preset },
                        dismiss_on_select: false,
                        dismiss_parent_on_child_accept: true,
                    },
                );
                assert(model_ids@ =~= pickable_presets(all.take(k + 1)).map_values(
                    |p: ModelPreset| p.model,
                ));
                assert forall|i: int| 0 <= i < items@.len() implies is_model_item(
                    #[trigger] items@[i],
                    pickable_presets(all.take(k + 1))[i],
                    self.advisor.model,
                ) by {
                    if i < listed.len() {
                        assert(pickable_presets(all.take(k + 1))[i] == listed[i]);
                    }
                }
            }
            k = k + 1;
        }
        assert(all.take(n as int) =~= all);
        if items.len() == 0 {
            self.add_info_message(String::from_str("No advisor models are available right now."));
            assert(self.info_messages@.drop_last() =~= old(self).info_messages@);
            return;
        }
        let view = SelectionView {
            view_id: Some(String::from_str("advisor-model-selection")),
            title: Some(String::from_str("Advisor")),
            header: Some(
                MenuHeader {
                    title: String::from_str("Select Advisor Model"),
                    subtitle: String::new(),
                },
            ),
            items,
            model_ids: Some(model_ids),
        };
        self.views.push(view);
        assert(self.views@.drop_last() =~= old(self).views@);
    }

    /// Opens the popup of reasoning efforts for `preset`: one item per effort
    /// the model supports (its default effort when it lists none), the
    /// configured effort marked current when `preset` is the configured model.
    pub fn open_advisor_reasoning_popup(&mut self, preset: ModelPreset)
        ensures
            final(self).info_messages@ == old(self).info_messages@,
            one_more_view(old(self).views@, final(self).views@),
            is_reasoning_popup(final(self).views@.last(), preset, old(self).advisor),
            final(self).session_configured == old(self).session_configured,
            final(self).advisor == old(self).advisor,
            final(self).model_popup_request_id == old(self).model_popup_request_id,
            final(self).events@ == old(self).events@,
    {
        let mut efforts: Vec<ReasoningEffort> = Vec::new();
        let n = preset.supported_reasoning_efforts.len();
        for i in 0..n
            invariant
                n == preset.supported_reasoning_efforts@.len(),
                efforts@ == preset.supported_reasoning_efforts@.take(i as int),
        {
            efforts.push(preset.supported_reasoning_efforts[i]);
            assert(efforts@ =~= preset.supported_reasoning_efforts@.take(i + 1));
        }
        assert(preset.supported_reasoning_efforts@.take(n as int)
            =~= preset.supported_reasoning_efforts@);
        if efforts.len() == 0 {
            efforts.push(preset.default_reasoning_effort);
            assert(efforts@ =~= seq![preset.default_reasoning_effort]);
        }
        let current_model = configured_model_is(&self.advisor.model, &preset.model);
        let current_effort = if current_model {
            self.advisor.reasoning_effort
        } else {
            None
        };
        let mut items: Vec<SelectionItem> = Vec::new();
        let m = efforts.len();
        for i in 0..m
            invariant
                m == efforts@.len(),
                efforts@ == popup_efforts(preset),
                current_model == is_configured_model(self.advisor.model, preset.model@),
                current_effort == (if current_model {
                    self.advisor.reasoning_effort
                } else {
                    None
                }),
                items@.len() == i,
                forall|j: int|
                    0 <= j < i ==> is_effort_item(
                        #[trigger] items@[j],
                        efforts@[j],
                        preset.model,
                        self.advisor,
                    ),
        {
            let effort = efforts[i];
            let selected = current_model && current_effort == Some(effort);
            items.push(
                SelectionItem {
                    name: effort.label(),
                    description: None,
                    is_current: selected,
                    action: AppEvent::PersistAdvisorSelection {
                        model: preset.model.clone(),
                        effort: Some(effort),
                    },
                    dismiss_on_select: true,
                    dismiss_parent_on_child_accept: false,
                },
            );
        }
        let title = String::from_str("Advisor Reasoning · ").concat(preset.display_name.as_str());
        self.views.push(
            SelectionView {
                view_id: None,
                title: Some(title),
                header: None,
                items,
                model_ids: None,
            },
        );
        assert(self.views@.drop_last() =~= old(self).views@);
    }

    /// Opens the advisor model picker once the session has started: lists
    /// the models the catalog offers now (none when it cannot answer), and
    /// asks for a fresh catalog under a new request id that the widget keeps.
    pub fn open_advisor_picker(&mut self, catalog: Option<Vec<ModelPreset>>)
        ensures
            final(self).session_configured == old(self).session_configured,
            final(self).advisor == old(self).advisor,
            !old(self).session_configured ==> {
                &&& one_more_message(
                    old(self).info_messages@,
                    final(self).info_messages@,
                    startup_pending_message(),
                )
                &&& final(self).views@ == old(self).views@
                &&& final(self).events@ == old(self).events@
                &&& final(self).model_popup_request_id == old(self).model_popup_request_id
            },
            old(self).session_configured ==> {
                &&& model_picker_opened(*old(self), catalog_presets(catalog), *final(self))
                &&& final(self).model_popup_request_id matches Some(id)
                &&& is_random_request_id(id)
                &&& final(self).events@ == old(self).events@.push(
                    AppEvent::FetchModels { request_id: id },
                )
            },
    {
        if !self.is_session_configured() {
            self.add_info_message(
                String::from_str("Advisor selection is disabled until startup completes."),
            );
            assert(self.info_messages@.drop_last() =~= old(self).info_messages@);
            return;
        }
        let presets = match catalog {
            Some(presets) => presets,
            None => Vec::new(),
        };
        let request_id = new_request_id();
        self.model_popup_request_id = Some(request_id);
        self.open_advisor_picker_with_presets(presets);
        self.events.push(AppEvent::FetchModels { request_id });
    }
}

/// The presets of a catalog answer; none when the catalog could not answer.
pub open spec fn catalog_presets(catalog: Option<Vec<ModelPreset>>) -> Seq<ModelPreset> {
    match catalog {
        Some(v) => v@,
        None => Seq::empty(),
    }
}

/// The efforts that the popup for `p` offers.
pub open spec fn popup_efforts(p: ModelPreset) -> Seq<ReasoningEffort> {
    if p.supported_reasoning_efforts@.len() == 0 {
        seq![p.default_reasoning_effort]
    } else {
        p.supported_reasoning_efforts@
    }
}

/// Whether `item` is the popup's item for effort `e` of `model`: labelled
/// after the effort, current when model and effort are the configured ones,
/// storing both when chosen, and closing the popup.
pub open spec fn is_effort_item(
    item: SelectionItem,
    e: ReasoningEffort,
    model: String,
    current: AdvisorSelection,
) -> bool {
    &&& item.name@ == effort_label(e)
    &&& item.description is None
    &&& item.is_current == (is_configured_model(current.model, model@) && current.reasoning_effort
        == Some(e))
    &&& item.action == AppEvent::PersistAdvisorSelection { model, effort: Some(e) }
    &&& item.dismiss_on_select
    &&& !item.dismiss_parent_on_child_accept
}

/// Whether `v` is the reasoning effort popup for `p`.
pub open spec fn is_reasoning_popup(v: SelectionView, p: ModelPreset, current: AdvisorSelection) -> bool {
    let efforts = popup_efforts(p);
    &&& v.view_id is None
    &&& (v.title matches Some(t) && t@ == "Advisor Reasoning · "@ + p.display_name@)
    &&& v.header is None
    &&& v.model_ids is None
    &&& v.items@.len() == efforts.len()
    &&& forall|i: int|
        0 <= i < efforts.len() ==> is_effort_item(#[trigger] v.items@[i], efforts[i], p.model, current)
}

/// Whether `id` has the shape of a random (version 4, RFC 9562 variant) UUID.
pub open spec fn is_random_request_id(id: u128) -> bool {
    &&& (id >> 76u128) & 0xfu128 == 4
    &&& (id >> 62u128) & 0x3u128 == 2
}

/// A fresh request id: `uuid::Uuid::new_v4`, as its 128-bit value. The
/// value is random; all that is claimed of it is what `new_v4` always sets,
/// its version (4) and variant (RFC 9562) bits.
#[verifier::external_body]
fn new_request_id() -> (id: u128)
    ensures
        is_random_request_id(id),
{
    uuid::Uuid::new_v4().as_u128()
}


/// The advisor model picker lists exactly the presets that are shown in
/// pickers and are not automatic models, and no others.
pub proof fn lemma_picker_lists_exactly_pickable(ps: Seq<ModelPreset>)
    ensures
        forall|p: ModelPreset| #[trigger]
            pickable_presets(ps).contains(p) <==> (ps.contains(p) && pickable(p)),
        pickable_presets(ps).len() <= ps.len(),
    decreases ps.len(),
{
    if ps.len() > 0 {
        let rest = ps.drop_last();
        lemma_picker_lists_exactly_pickable(rest);
        assert(ps =~= rest.push(ps.last()));
        assert forall|p: ModelPreset| #[trigger]
            pickable_presets(ps).contains(p) <==> (ps.contains(p) && pickable(p)) by {
            if ps.contains(p) && pickable(p) && p != ps.last() {
                let i = choose|i: int| 0 <= i < ps.len() && ps[i] == p;
                assert(i < rest.len());
                assert(rest[i] == p);
                assert(rest.contains(p));
            }
            if pickable_presets(ps).contains(p) && pickable(ps.last()) && p != ps.last() {
                let j = choose|j: int| 0 <= j < pickable_presets(ps).len() && pickable_presets(
                    ps,
                )[j] == p;
                assert(pickable_presets(rest).contains(p)) by {
                    assert(pickable_presets(rest)[j] == p);
                }
            }
            if rest.contains(p) {
                let i = choose|i: int| 0 <= i < rest.len() && rest[i] == p;
                assert(ps[i] == p);
            }
            if pickable_presets(rest).contains(p) && pickable(ps.last()) {
                let j = choose|j: int| 0 <= j < pickable_presets(rest).len()
                    && pickable_presets(rest)[j] == p;
                assert(pickable_presets(ps)[j] == p);
            }
            if pickable(ps.last()) {
                assert(pickable_presets(ps).last() == ps.last());
                assert(ps[ps.len() - 1] == ps.last());
            }
        }
    }
}

/// The reasoning effort popup always offers at least one effort.
pub proof fn lemma_popup_offers_an_effort(v: SelectionView, p: ModelPreset, current: AdvisorSelection)
    requires
        is_reasoning_popup(v, p, current),
    ensures
        v.items@.len() >= 1,
{
}

/// When a model's efforts are distinct, the reasoning effort popup marks at
/// most one item as current, and only for the configured model.
pub proof fn lemma_popup_marks_one_current(
    v: SelectionView,
    p: ModelPreset,
    current: AdvisorSelection,
    i: int,
    j: int,
)
    requires
        is_reasoning_popup(v, p, current),
        popup_efforts(p).no_duplicates(),
        0 <= i < v.items@.len(),
        0 <= j < v.items@.len(),
        v.items@[i].is_current,
        v.items@[j].is_current,
    ensures
        i == j,
        is_configured_model(current.model, p.model@),
{
    assert(is_effort_item(v.items@[i], popup_efforts(p)[i], p.model, current));
    assert(is_effort_item(v.items@[j], popup_efforts(p)[j], p.model, current));
}


/// The configured model's own name counts as configured.
pub proof fn lemma_configured_name_is_configured(c: String)
    ensures
        is_configured_model(Some(c), c@),
{
}

/// At most one model name counts as configured, and only when a model is
/// configured: two names that both count are the same name, the configured one.
pub proof fn lemma_only_one_name_is_configured(current: Option<String>, m1: Seq<char>, m2: Seq<char>)
    requires
        is_configured_model(current, m1),
        is_configured_model(current, m2),
    ensures
        m1 == m2,
        current matches Some(c) && c@ == m1,
{
}

/// In the advisor model picker, an item is current exactly when its model
/// is the configured model; so when the listed models have distinct names,
/// at most one item is current.
pub proof fn lemma_picker_marks_only_configured_model(
    v: SelectionView,
    presets: Seq<ModelPreset>,
    current: Option<String>,
    i: int,
    j: int,
)
    requires
        is_model_picker(v, presets, current),
        0 <= i < v.items@.len(),
        0 <= j < v.items@.len(),
    ensures
        v.items@[i].is_current <==> (current matches Some(c) && c@
            == pickable_presets(presets)[i].model@),
        v.items@[i].is_current && v.items@[j].is_current ==> pickable_presets(presets)[i].model@
            == pickable_presets(presets)[j].model@,
{
    assert(is_model_item(v.items@[i], pickable_presets(presets)[i], current));
    assert(is_model_item(v.items@[j], pickable_presets(presets)[j], current));
}

/// When a model lists its efforts, the reasoning popup offers exactly those,
/// in order: one item per listed effort, labelled after it and storing it
/// with the model when chosen.
pub proof fn lemma_popup_offers_every_listed_effort(
    v: SelectionView,
    p: ModelPreset,
    current: AdvisorSelection,
)
    requires
        is_reasoning_popup(v, p, current),
        p.supported_reasoning_efforts@.len() > 0,
    ensures
        v.items@.len() == p.supported_reasoning_efforts@.len(),
        forall|i: int|
            #![trigger v.items@[i]]
            0 <= i < v.items@.len() ==> {
                &&& v.items@[i].name@ == effort_label(p.supported_reasoning_efforts@[i])
                &&& v.items@[i].action == AppEvent::PersistAdvisorSelection {
                    model: p.model,
                    effort: Some(p.supported_reasoning_efforts@[i]),
                }
                &&& v.items@[i].is_current == (is_configured_model(current.model, p.model@)
                    && current.reasoning_effort == Some(p.supported_reasoning_efforts@[i]))
            },
{
    assert forall|i: int| #![trigger v.items@[i]] 0 <= i < v.items@.len() implies {
        &&& v.items@[i].name@ == effort_label(p.supported_reasoning_efforts@[i])
        &&& v.items@[i].action == AppEvent::PersistAdvisorSelection {
            model: p.model,
            effort: Some(p.supported_reasoning_efforts@[i]),
        }
        &&& v.items@[i].is_current == (is_configured_model(current.model, p.model@)
            && current.reasoning_effort == Some(p.supported_reasoning_efforts@[i]))
    } by {
        assert(is_effort_item(v.items@[i], popup_efforts(p)[i], p.model, current));
    }
}

/// When a model lists no efforts, the reasoning popup offers its default
/// effort alone.
pub proof fn lemma_popup_offers_default_when_none_listed(
    v: SelectionView,
    p: ModelPreset,
    current: AdvisorSelection,
)
    requires
        is_reasoning_popup(v, p, current),
        p.supported_reasoning_efforts@.len() == 0,
    ensures
        v.items@.len() == 1,
        v.items@[0].name@ == effort_label(p.default_reasoning_effort),
        v.items@[0].action == (AppEvent::PersistAdvisorSelection {
            model: p.model,
            effort: Some(p.default_reasoning_effort),
        }),
{
    assert(is_effort_item(v.items@[0], popup_efforts(p)[0], p.model, current));
}

} // verus!
