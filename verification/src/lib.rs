//! A typed, verified model of a binding layer over an immediate-mode UI
//! layout engine.
//!
//! Callers describe a tree of layout elements (containers, text, images,
//! custom elements); the engine itself solves the box model and is an
//! opaque external collaborator. This crate captures the binding's
//! observable behaviour: the plain-data configuration records handed to the
//! engine, the discriminant routing that attaches each configuration to its
//! element, and the scoped begin/with/end protocol of one layout pass.
//!
//! Instead of raw pointers into the engine's arena, a configuration handle
//! carries a slot index (the position of its store call within the pass)
//! together with the generation number of the pass that produced it. Every
//! operation of a pass records exactly which engine entry points it invokes,
//! in order, as a script of [`EngineCall`] values; an unverified shell can
//! replay that script against the real engine call for call. The contracts
//! pin the script down completely, so the routing rules and the bracketing
//! of open and close calls are checked rather than trusted.

use vstd::prelude::*;

pub mod color;
pub mod elements;
pub mod id;
pub mod layout;
pub mod render_commands;

use crate::elements::containers::border::BorderContainer;
use crate::elements::custom::Custom;
use crate::elements::image::Image;
use crate::elements::containers::floating::Floating;
use crate::elements::containers::scroll::Scroll;
use crate::elements::rectangle::Rectangle;
use crate::elements::text::Text;
use crate::elements::text::TextElementConfig;
use crate::elements::ElementConfigType;
use crate::elements::config_type_code;
use crate::id::Id;
use crate::layout::Layout;
use crate::render_commands::RenderCommandArray;

verus! {

broadcast use vstd::string::group_string_axioms;

/// A typed configuration handle: the result of finalizing one element-kind
/// builder. It names the arena slot that the stored record went to, carries
/// the identifier to attach alongside it, and is stamped with the
/// discriminant of the kind that produced it, which alone decides which
/// attach entry point of the engine the handle is routed to.
///
/// The handle does not own the stored record: the slot belongs to the
/// engine's arena and means nothing once the pass of `generation` is over.
#[derive(Debug, Clone, Copy)]
pub struct TypedConfig {
    /// Arena slot of the stored configuration record: the position of its
    /// store call within the owning pass.
    pub config_slot: usize,
    /// The element identifier to attach along with the configuration.
    pub id: Id,
    /// Which kind of configuration the slot holds.
    pub config_type: ElementConfigType,
    /// The layout pass the handle belongs to.
    pub generation: u64,
}

/// A back-reference to caller data placed in arena-compatible storage by
/// the unverified shell's allocation helper, so that its lifetime covers
/// the layout pass. A custom element carries one; the engine hands it back
/// unread in the matching render command.
#[derive(Debug, Clone, Copy, PartialEq, Eq, Structural)]
pub struct DataRef {
    /// Index of the allocation within the shell's per-pass data table.
    pub slot: usize,
}

/// One invocation of an engine entry point, as recorded in the script of a
/// layout pass. Store calls carry the plain-data record that is copied into
/// the engine's arena; attach calls name arena slots of the current pass.
#[derive(Debug, Clone, PartialEq)]
pub enum EngineCall {
    /// Starts the pass and resets the engine's per-pass state.
    BeginLayout,
    /// Copies a layout configuration into the arena.
    StoreLayout { config: Layout },
    /// Copies a rectangle configuration into the arena.
    StoreRectangle { config: Rectangle },
    /// Copies a text configuration into the arena.
    StoreText { config: Text },
    /// Copies a border configuration into the arena.
    StoreBorder { config: BorderContainer },
    /// Copies a custom-element configuration into the arena.
    StoreCustom { config: Custom },
    /// Copies an image configuration into the arena.
    StoreImage { config: Image },
    /// Copies a scroll-container configuration into the arena.
    StoreScroll { config: Scroll },
    /// Copies a floating-container configuration into the arena.
    StoreFloating { config: Floating },
    /// Opens one element; its children are the elements opened before the
    /// matching close call.
    OpenElement,
    /// Attaches an element identifier to the open element.
    AttachId { id: Id },
    /// Attaches the layout configuration in the given slot, through the
    /// engine's dedicated layout entry point.
    AttachLayout { slot: usize },
    /// Attaches the element-kind configuration in the given slot through
    /// the generic entry point, telling the engine its kind tag.
    AttachConfig { slot: usize, kind_code: u8 },
    /// Tells the engine that the open element's configuration is complete.
    PostConfiguration,
    /// Appends a text leaf: one atomic call carrying the text and its
    /// configuration slot, with no separate open and close around it.
    OpenText { text: String, slot: usize },
    /// Closes the most recently opened element.
    CloseElement,
    /// Ends the pass: the engine solves the layout and produces its render
    /// command array.
    EndLayout,
}

/// The mathematical form of one recorded engine call: text as a character
/// sequence, everything else as the plain values the call carries.
pub enum CallView {
    BeginLayout,
    StoreLayout { config: Layout },
    StoreRectangle { config: Rectangle },
    StoreText { config: Text },
    StoreBorder { config: BorderContainer },
    StoreCustom { config: Custom },
    StoreImage { config: Image },
    StoreScroll { config: Scroll },
    StoreFloating { config: Floating },
    OpenElement,
    AttachId { id: Id },
    AttachLayout { slot: usize },
    AttachConfig { slot: usize, kind_code: u8 },
    PostConfiguration,
    OpenText { text: Seq<char>, slot: usize },
    CloseElement,
    EndLayout,
}

impl View for EngineCall {
    type V = CallView;

    open spec fn view(&self) -> CallView {
        match self {
            EngineCall::BeginLayout => CallView::BeginLayout,
            EngineCall::StoreLayout { config } => CallView::StoreLayout { config: *config },
            EngineCall::StoreRectangle { config } => CallView::StoreRectangle { config: *config },
            EngineCall::StoreText { config } => CallView::StoreText { config: *config },
            EngineCall::StoreBorder { config } => CallView::StoreBorder { config: *config },
            EngineCall::StoreCustom { config } => CallView::StoreCustom { config: *config },
            EngineCall::StoreImage { config } => CallView::StoreImage { config: *config },
            EngineCall::StoreScroll { config } => CallView::StoreScroll { config: *config },
            EngineCall::StoreFloating { config } => CallView::StoreFloating { config: *config },
            EngineCall::OpenElement => CallView::OpenElement,
            EngineCall::AttachId { id } => CallView::AttachId { id: *id },
            EngineCall::AttachLayout { slot } => CallView::AttachLayout { slot: *slot },
            EngineCall::AttachConfig { slot, kind_code } => CallView::AttachConfig {
                slot: *slot,
                kind_code: *kind_code,
            },
            EngineCall::PostConfiguration => CallView::PostConfiguration,
            EngineCall::OpenText { text, slot } => CallView::OpenText {
                text: text@,
                slot: *slot,
            },
            EngineCall::CloseElement => CallView::CloseElement,
            EngineCall::EndLayout => CallView::EndLayout,
        }
    }
}

/// The abstract state of a wrapper instance: the script of the current
/// pass, the pass generation, and the progress of tree construction.
#[verifier::ext_equal]
pub ghost struct ClayView {
    /// The engine calls of the current pass, in invocation order.
    pub log: Seq<CallView>,
    /// Which pass this is; everything tagged with an earlier generation is
    /// stale.
    pub generation: int,
    /// How many elements are open and not yet closed.
    pub depth: int,
    /// Whether a pass is underway (between begin and end).
    pub building: bool,
    /// How many arena slots the pass has handed out so far.
    pub stored: int,
    /// Viewport width handed to the engine at initialization.
    pub width: u32,
    /// Viewport height handed to the engine at initialization.
    pub height: u32,
}

impl TypedConfig {
    /// Whether this handle may be attached in the state `v`: it belongs to
    /// the current pass and its slot was really handed out by that pass.
    /// Identifier handles carry no slot worth checking.
    pub open spec fn valid_for(self, v: ClayView) -> bool {
        &&& self.generation == v.generation
        &&& (self.config_type is Id || self.config_slot < v.stored)
    }
}

/// The attach call that the routing rules emit for one configuration
/// handle: identifier and layout handles go to their dedicated entry
/// points, every other kind to the generic one under its kind tag.
pub open spec fn attach_view(c: TypedConfig) -> CallView {
    match c.config_type {
        ElementConfigType::Id => CallView::AttachId { id: c.id },
        ElementConfigType::Layout => CallView::AttachLayout { slot: c.config_slot },
        _ => CallView::AttachConfig {
            slot: c.config_slot,
            kind_code: config_type_code(c.config_type),
        },
    }
}

/// Attachment is routed by the handle's discriminant alone: an identifier
/// handle always goes to the identifier entry point, a layout handle
/// always to the layout entry point, and every other kind to the generic
/// entry point under exactly its own kind tag — never to either dedicated
/// one.
pub proof fn lemma_attach_routing(c: TypedConfig)
    ensures
        c.config_type is Id ==> attach_view(c) == (CallView::AttachId { id: c.id }),
        c.config_type is Layout ==> attach_view(c) == (CallView::AttachLayout {
            slot: c.config_slot,
        }),
        !(c.config_type is Id) && !(c.config_type is Layout) ==> attach_view(c) == (
        CallView::AttachConfig {
            slot: c.config_slot,
            kind_code: config_type_code(c.config_type),
        }),
{
}

/// The attach calls for a sequence of configuration handles, one per
/// handle, in the handles' order.
pub open spec fn attach_views(cs: Seq<TypedConfig>) -> Seq<CallView>
    decreases cs.len(),
{
    if cs.len() == 0 {
        Seq::empty()
    } else {
        attach_views(cs.drop_last()).push(attach_view(cs.last()))
    }
}

/// An empty handle sequence emits no attach calls.
pub proof fn lemma_attach_views_empty()
    ensures
        attach_views(Seq::<TypedConfig>::empty()) == Seq::<CallView>::empty(),
{
}

/// One more handle emits exactly one more attach call, after the others.
pub proof fn lemma_attach_views_push(cs: Seq<TypedConfig>, c: TypedConfig)
    ensures
        attach_views(cs.push(c)) == attach_views(cs).push(attach_view(c)),
{
    assert(cs.push(c).drop_last() =~= cs);
    assert(cs.push(c).last() == c);
}

/// The full call sequence that opening one element with the given handles
/// emits: the open call, one attach call per handle in order, then the
/// post-configuration call.
pub open spec fn open_views(cs: Seq<TypedConfig>) -> Seq<CallView> {
    seq![CallView::OpenElement] + attach_views(cs) + seq![CallView::PostConfiguration]
}

/// The recorded calls, each taken to its mathematical form, in order.
pub open spec fn script_views(s: Seq<EngineCall>) -> Seq<CallView>
    decreases s.len(),
{
    if s.len() == 0 {
        Seq::empty()
    } else {
        script_views(s.drop_last()).push(s.last()@)
    }
}

/// Recording one more call appends its mathematical form to the script.
proof fn lemma_script_views_push(s: Seq<EngineCall>, c: EngineCall)
    ensures
        script_views(s.push(c)) == script_views(s).push(c@),
{
    assert(s.push(c).drop_last() =~= s);
    assert(s.push(c).last() == c);
}

/// The state a child builder starts from: the element has been opened and
/// its handles attached, so the builder's additions become its children.
pub open spec fn mid_view(v: ClayView, cs: Seq<TypedConfig>) -> ClayView {
    ClayView { log: v.log + open_views(cs), depth: v.depth + 1, ..v }
}

/// One wrapper instance over the layout engine. It owns the script of the
/// current pass and the bookkeeping that stands in for the engine's arena:
/// the slot counter, the open-element depth and the pass generation.
pub struct Clay {
    log: Vec<EngineCall>,
    generation: u64,
    depth: usize,
    building: bool,
    stored: usize,
    width: u32,
    height: u32,
}

impl View for Clay {
    type V = ClayView;

    closed spec fn view(&self) -> ClayView {
        ClayView {
            log: script_views(self.log@),
            generation: self.generation as int,
            depth: self.depth as int,
            building: self.building,
            stored: self.stored as int,
            width: self.width,
            height: self.height,
        }
    }
}

impl Clay {
    /// A fresh wrapper for the given viewport, ready to begin its first
    /// pass. The arena buffer itself is allocated by the unverified shell,
    /// sized to the engine's reported minimum, before the script of a pass
    /// is replayed.
    pub fn new(width: u32, height: u32) -> (r: Self)
        ensures
            r@ == (ClayView {
                log: Seq::<CallView>::empty(),
                generation: 0int,
                depth: 0int,
                building: false,
                stored: 0int,
                width,
                height,
            }),
    {
        let r = Self {
            log: Vec::new(),
            generation: 0,
            depth: 0,
            building: false,
            stored: 0,
            width,
            height,
        };
        proof {
            assert(script_views(r.log@) == Seq::<CallView>::empty());
            assert(r@ =~= (ClayView {
                log: Seq::<CallView>::empty(),
                generation: 0int,
                depth: 0int,
                building: false,
                stored: 0int,
                width,
                height,
            }));
        }
        r
    }

    /// Starts a new layout pass. The script of the previous pass is
    /// discarded, the slot counter resets with the engine's arena, and the
    /// generation advances, so every handle and render-command view of an
    /// earlier pass stops being valid here.
    pub fn begin(&mut self)
        requires
            !old(self)@.building,
            old(self)@.generation < u64::MAX,
        ensures
            final(self)@ == (ClayView {
                log: seq![CallView::BeginLayout],
                generation: old(self)@.generation + 1,
                depth: 0int,
                building: true,
                stored: 0int,
                ..old(self)@
            }),
    {
        self.log.clear();
        let ghost pre = self.log@;
        self.log.push(EngineCall::BeginLayout);
        self.generation = self.generation + 1;
        self.depth = 0;
        self.building = true;
        self.stored = 0;
        proof {
            lemma_script_views_push(pre, EngineCall::BeginLayout);
            assert(script_views(pre) == Seq::<CallView>::empty());
            assert(self@.log =~= seq![CallView::BeginLayout]);
            assert(self@ =~= (ClayView {
                log: seq![CallView::BeginLayout],
                generation: old(self)@.generation + 1,
                depth: 0int,
                building: true,
                stored: 0int,
                ..old(self)@
            }));
        }
    }

    /// Records one store call and hands out the arena slot it filled.
    /// Builders call this when they finalize; it must happen during an
    /// active pass, because the record goes into the pass's arena.
    pub(crate) fn store(&mut self, call: EngineCall) -> (slot: usize)
        requires
            old(self)@.building,
            old(self)@.stored < usize::MAX,
        ensures
            slot as int == old(self)@.stored,
            final(self)@ == (ClayView {
                log: old(self)@.log.push(call@),
                stored: old(self)@.stored + 1,
                ..old(self)@
            }),
    {
        let slot = self.stored;
        self.stored = self.stored + 1;
        let ghost pre = self.log@;
        self.log.push(call);
        proof {
            lemma_script_views_push(pre, call);
            assert(self@.log =~= old(self)@.log.push(call@));
            assert(self@ =~= (ClayView {
                log: old(self)@.log.push(call@),
                stored: old(self)@.stored + 1,
                ..old(self)@
            }));
        }
        slot
    }

    /// Opens one element and attaches the given configuration handles,
    /// routing each by its discriminant alone: identifier handles to the
    /// identifier entry point, layout handles to the layout entry point,
    /// every other kind to the generic entry point under its kind tag.
    /// The handles must come from the current pass. At most one layout and
    /// at most one identifier handle should be supplied; the engine keeps
    /// the last of a repeated kind.
    pub fn open_element(&mut self, configs: &Vec<TypedConfig>)
        requires
            old(self)@.building,
            old(self)@.depth < usize::MAX,
            forall|i: int|
                0 <= i < configs@.len() ==> (#[trigger] configs@[i]).valid_for(old(self)@),
        ensures
            final(self)@ == (ClayView {
                log: old(self)@.log + open_views(configs@),
                depth: old(self)@.depth + 1,
                ..old(self)@
            }),
    {
        let ghost pre0 = self.log@;
        self.log.push(EngineCall::OpenElement);
        proof {
            lemma_script_views_push(pre0, EngineCall::OpenElement);
            assert(attach_views(configs@.take(0)) == Seq::<CallView>::empty());
            assert(self@.log =~= old(self)@.log + seq![CallView::OpenElement] + attach_views(
                configs@.take(0),
            ));
            assert(self@ =~= (ClayView {
                log: old(self)@.log + seq![CallView::OpenElement] + attach_views(configs@.take(0)),
                ..old(self)@
            }));
        }
        let n = configs.len();
        let mut i: usize = 0;
        while i < n
            invariant
                i <= n,
                n == configs@.len(),
                self@ == (ClayView {
                    log: old(self)@.log + seq![CallView::OpenElement] + attach_views(
                        configs@.take(i as int),
                    ),
                    ..old(self)@
                }),
            decreases n - i,
        {
            let c = configs[i];
            let call = match c.config_type {
                ElementConfigType::Id => EngineCall::AttachId { id: c.id },
                ElementConfigType::Layout => EngineCall::AttachLayout { slot: c.config_slot },
                _ => EngineCall::AttachConfig {
                    slot: c.config_slot,
                    kind_code: c.config_type.code(),
                },
            };
            let ghost pre = self.log@;
            self.log.push(call);
            proof {
                lemma_script_views_push(pre, call);
                assert(call@ == attach_view(configs@[i as int]));
                assert(configs@.take(i + 1).drop_last() =~= configs@.take(i as int));
                assert(configs@.take(i + 1).last() == configs@[i as int]);
                assert(attach_views(configs@.take(i + 1)) == attach_views(
                    configs@.take(i as int),
                ).push(attach_view(configs@[i as int])));
                assert(self@.log =~= old(self)@.log + seq![CallView::OpenElement] + attach_views(
                    configs@.take(i + 1),
                ));
                assert(self@ =~= (ClayView {
                    log: old(self)@.log + seq![CallView::OpenElement] + attach_views(
                        configs@.take(i + 1),
                    ),
                    ..old(self)@
                }));
            }
            i = i + 1;
        }
        let ghost pre1 = self.log@;
        self.log.push(EngineCall::PostConfiguration);
        self.depth = self.depth + 1;
        proof {
            lemma_script_views_push(pre1, EngineCall::PostConfiguration);
            assert(configs@.take(n as int) =~= configs@);
            assert(self@.log =~= old(self)@.log + open_views(configs@));
            assert(self@ =~= (ClayView {
                log: old(self)@.log + open_views(configs@),
                depth: old(self)@.depth + 1,
                ..old(self)@
            }));
        }
    }

    /// Opens one element with the given configuration handles, builds its
    /// children by handing the wrapper to `child_builder`, then closes the
    /// element again. This is the sole way nested structure arises: the
    /// children are whatever the builder constructs between the open and
    /// the close. The builder receives the wrapper mid-element and must
    /// leave the pass running with this element still open, so that the
    /// close matches; beyond that it may add any children it likes.
    pub fn with<F: FnOnce(Clay) -> Clay>(self, configs: &Vec<TypedConfig>, child_builder: F) -> (r:
        Clay)
        requires
            self@.building,
            self@.depth < usize::MAX,
            forall|i: int| 0 <= i < configs@.len() ==> (#[trigger] configs@[i]).valid_for(self@),
            forall|c: Clay|
                c@ == mid_view(self@, configs@) ==> #[trigger] call_requires(child_builder, (c,)),
            forall|c: Clay, d: Clay|
                #[trigger] call_ensures(child_builder, (c,), d) ==> d@.building && d@.depth >= 1,
        ensures
            exists|mid: Clay, out: Clay|
                {
                    &&& mid@ == mid_view(self@, configs@)
                    &&& #[trigger] call_ensures(child_builder, (mid,), out)
                    &&& r@ == (ClayView {
                        log: out@.log.push(CallView::CloseElement),
                        depth: out@.depth - 1,
                        ..out@
                    })
                },
    {
        let mut opened = self;
        opened.open_element(configs);
        let mut out = child_builder(opened);
        out.close_element();
        out
    }

    /// Closes the most recently opened element. Every open call must be
    /// matched by exactly one close before the pass ends.
    pub fn close_element(&mut self)
        requires
            old(self)@.building,
            old(self)@.depth >= 1,
        ensures
            final(self)@ == (ClayView {
                log: old(self)@.log.push(CallView::CloseElement),
                depth: old(self)@.depth - 1,
                ..old(self)@
            }),
    {
        let ghost pre = self.log@;
        self.log.push(EngineCall::CloseElement);
        self.depth = self.depth - 1;
        proof {
            lemma_script_views_push(pre, EngineCall::CloseElement);
            assert(self@.log =~= old(self)@.log.push(CallView::CloseElement));
            assert(self@ =~= (ClayView {
                log: old(self)@.log.push(CallView::CloseElement),
                depth: old(self)@.depth - 1,
                ..old(self)@
            }));
        }
    }

    /// Appends a text leaf to the open element: one atomic engine call
    /// carrying the text and its finalized configuration. A text node is a
    /// leaf by construction — this call opens nothing, so there is no form
    /// through which children could be attached to it.
    pub fn text(&mut self, text: &str, config: TextElementConfig)
        requires
            old(self)@.building,
            config.generation == old(self)@.generation,
            config.slot < old(self)@.stored,
        ensures
            final(self)@ == (ClayView {
                log: old(self)@.log.push(CallView::OpenText { text: text@, slot: config.slot }),
                ..old(self)@
            }),
    {
        let ghost pre = self.log@;
        let owned = text.to_string();
        proof {
            assert(owned@ == text@);
        }
        self.log.push(EngineCall::OpenText { text: owned, slot: config.slot });
        proof {
            lemma_script_views_push(
                pre,
                EngineCall::OpenText { text: owned, slot: config.slot },
            );
            assert(self@.log =~= old(self)@.log.push(CallView::OpenText {
                text: text@,
                slot: config.slot,
            }));
            assert(self@ =~= (ClayView {
                log: old(self)@.log.push(CallView::OpenText { text: text@, slot: config.slot }),
                ..old(self)@
            }));
        }
    }

    /// Ends the pass: every opened element must have been closed. The
    /// engine solves the layout here and produces its render command
    /// array; the returned view stands for that array and is current
    /// exactly until the next pass begins.
    pub fn end(&mut self) -> (r: RenderCommandArray)
        requires
            old(self)@.building,
            old(self)@.depth == 0,
        ensures
            final(self)@ == (ClayView {
                log: old(self)@.log.push(CallView::EndLayout),
                building: false,
                ..old(self)@
            }),
            r@ == old(self)@.generation,
    {
        let ghost pre = self.log@;
        self.log.push(EngineCall::EndLayout);
        self.building = false;
        let r = RenderCommandArray::new_for_pass(self.generation);
        proof {
            lemma_script_views_push(pre, EngineCall::EndLayout);
            assert(self@.log =~= old(self)@.log.push(CallView::EndLayout));
            assert(self@ =~= (ClayView {
                log: old(self)@.log.push(CallView::EndLayout),
                building: false,
                ..old(self)@
            }));
        }
        r
    }

    /// Whether the given render-command view belongs to this wrapper's
    /// current pass. A conforming caller checks this (or tracks it by
    /// scope) before reading the engine's output through the view.
    pub fn is_current(&self, commands: &RenderCommandArray) -> (r: bool)
        ensures
            r == (commands@ == self@.generation),
    {
        commands.generation() == self.generation
    }

    /// The script of the current pass: each engine entry point the pass
    /// has invoked, in order. An unverified shell replays this against the
    /// real engine.
    pub fn script(&self) -> (r: &Vec<EngineCall>)
        ensures
            script_views(r@) == self@.log,
    {
        &self.log
    }

    /// The generation number of the current pass.
    pub fn generation(&self) -> (r: u64)
        ensures
            r as int == self@.generation,
    {
        self.generation
    }

    /// The viewport width the engine is initialized with.
    pub fn width(&self) -> (r: u32)
        ensures
            r == self@.width,
    {
        self.width
    }

    /// The viewport height the engine is initialized with.
    pub fn height(&self) -> (r: u32)
        ensures
            r == self@.height,
    {
        self.height
    }
}

/// Pass isolation: once a new pass has begun, no render-command view
/// obtained from any earlier pass is current any more, so a conforming
/// caller can never read stale engine output through it. `pre` and `post`
/// are the wrapper's states around the begin call, related as
/// [`Clay::begin`] ensures; `view_generation` is the generation a
/// render-command view carries, which [`Clay::end`] stamps with the
/// generation of the pass that produced it.
pub proof fn lemma_pass_isolation(pre: ClayView, post: ClayView, view_generation: int)
    requires
        !pre.building,
        pre.generation < u64::MAX,
        post.generation == pre.generation + 1,
        view_generation <= pre.generation,
    ensures
        view_generation != post.generation,
{
}

/// The same isolation for configuration handles: a handle finalized in any
/// pass up to `pre`'s can be attached in no state of the pass that a begin
/// call opens, however many slots that pass has handed out.
pub proof fn lemma_handle_isolation(pre: ClayView, post: ClayView, c: TypedConfig)
    requires
        !pre.building,
        pre.generation < u64::MAX,
        post.generation == pre.generation + 1,
        c.generation <= pre.generation,
    ensures
        !c.valid_for(post),
{
}

} // verus!
