//! The server: its registry of live input contexts, the handle through which
//! requests are made, and the bridge that the engine's callback enters by.

use vstd::prelude::*;
use vstd::slice::slice_to_vec;
use crate::imdkit::data_types::{
    PreeditCaretMessage,
    PreeditDrawMessage,
    StatusDrawBitmapMessage,
    StatusDrawTextMessage,
    XimTriggerKey,
};
use crate::imdkit::error::{ImError, Strictness};
use crate::imdkit::flags::InputStyle;
use crate::imdkit::frame::{
    KeyPressEvent,
    MessageKind,
    RawFrame,
    XCB_XIM_CREATE_IC,
    XCB_XIM_DESTROY_IC,
};
use crate::imdkit::im_message::{
    handle_callback,
    handed,
    verdict,
    CallbackOutcome,
    CreateIcReplyMessage,
    ImMessageHandler,
    RawCallbackArgs,
    Verdict,
};
use crate::imdkit::input_context::{InputContext, InputContextRegistry};
use crate::imdkit::request::{
    commit_request,
    preedit_caret_frame,
    preedit_draw_frame,
    status_draw_bitmap_frame,
    status_draw_text_frame,
    CommittedString,
    ImRequest,
    ImRequestView,
    PreeditCaretFrame,
    PreeditDrawFrame,
    StatusDrawBitmapFrame,
    StatusDrawTextFrame,
};
use crate::imdkit::wire::{len_to_u16, len_to_u32, low_u16, low_u32};
use crate::imdkit::ImClient;

verus! {

/// The views of a list of requests, in order.
pub open spec fn request_views(requests: Seq<ImRequest>) -> Seq<ImRequestView> {
    requests.map_values(|r: ImRequest| r@)
}

/// A handle on the server through which requests to the engine are made.
///
/// The handle sees the registry of live input contexts and cannot change it.
/// A request that names a live context is queued, in the order of the calls;
/// one that names any other context is refused and leaves no trace. Whoever
/// made the handle takes the queue and has the engine carry it out.
#[derive(Debug)]
pub struct ImServerRef<'a> {
    im: usize,
    input_contexts: &'a InputContextRegistry,
    requests: Vec<ImRequest>,
}

impl<'a> ImServerRef<'a> {
    /// The address of the engine instance that the handle speaks to.
    pub closed spec fn im_addr(&self) -> usize {
        self.im
    }

    /// The input contexts that are alive.
    pub closed spec fn live(&self) -> Set<usize> {
        self.input_contexts@
    }

    /// The requests that are queued, oldest first.
    pub closed spec fn pending(&self) -> Seq<ImRequestView> {
        request_views(self.requests@)
    }

    /// What a call that asks for `request` about the context `ic` does to a
    /// handle, and what it returns: the request joins the queue if the context
    /// is alive, else the call fails and the queue stays as it was.
    pub open spec fn issues(
        self,
        after: Self,
        ic: InputContext,
        request: ImRequestView,
        r: Result<(), ImError>,
    ) -> bool {
        &&& after.im_addr() == self.im_addr()
        &&& after.live() == self.live()
        &&& if self.live().contains(ic.addr()) {
            r is Ok && after.pending() == self.pending().push(request)
        } else {
            r == Err::<(), ImError>(ImError::DeadInputContext) && after.pending() == self.pending()
        }
    }

    /// A handle on the engine instance at `im` with an empty queue.
    pub fn new(im: usize, input_contexts: &'a InputContextRegistry) -> (r: Self)
        ensures
            r.im_addr() == im,
            r.live() == input_contexts@,
            r.pending() == Seq::<ImRequestView>::empty(),
    {
        ImServerRef { im, input_contexts, requests: Vec::new() }
    }

    /// Whether the input context `ic` is alive.
    pub fn contains(&self, ic: &InputContext) -> (r: bool)
        ensures
            r == self.live().contains(ic.addr()),
    {
        self.input_contexts.contains(ic)
    }

    /// The input context at `ic_ptr`, if one is alive there.
    pub fn get_ic(&self, ic_ptr: usize) -> (r: Option<InputContext>)
        ensures
            r is Some <==> ic_ptr != 0 && self.live().contains(ic_ptr),
            r matches Some(ic) ==> ic.addr() == ic_ptr,
    {
        self.input_contexts.get(ic_ptr)
    }

    /// The address of the engine instance.
    pub fn get_im_ptr(&self) -> (r: usize)
        ensures
            r == self.im_addr(),
    {
        self.im
    }

    /// The address of the engine instance, or nothing for the null address.
    pub fn get_im_ptr_non_null(&self) -> (r: Option<usize>)
        ensures
            r == if self.im_addr() != 0 {
                Some(self.im_addr())
            } else {
                None::<usize>
            },
    {
        if self.im != 0 {
            Some(self.im)
        } else {
            None
        }
    }

    /// How many requests are queued.
    pub fn pending_len(&self) -> (r: usize)
        ensures
            r == self.pending().len(),
    {
        self.requests.len()
    }

    /// Takes the queued requests, oldest first, and leaves the queue empty.
    pub fn take_requests(&mut self) -> (r: Vec<ImRequest>)
        ensures
            request_views(r@) == old(self).pending(),
            r@.len() == old(self).pending().len(),
            final(self).pending() == Seq::<ImRequestView>::empty(),
            final(self).im_addr() == old(self).im_addr(),
            final(self).live() == old(self).live(),
    {
        let mut taken: Vec<ImRequest> = Vec::new();
        std::mem::swap(&mut taken, &mut self.requests);
        taken
    }

    /// Queues `request` if the context `ic` is alive.
    fn issue(&mut self, ic: &InputContext, request: ImRequest) -> (r: Result<(), ImError>)
        ensures
            old(self).issues(*final(self), *ic, request@, r),
    {
        if self.input_contexts.contains(ic) {
            self.requests.push(request);
            proof {
                assert(request_views(self.requests@) == request_views(old(self).requests@).push(
                    request@,
                ));
            }
            Ok(())
        } else {
            Err(ImError::DeadInputContext)
        }
    }

    /// Asks the engine to send the key event `event` on to the client of `ic`.
    pub fn forward_event(&mut self, ic: &InputContext, event: &KeyPressEvent) -> (r: Result<
        (),
        ImError,
    >)
        ensures
            old(self).issues(
                *final(self),
                *ic,
                ImRequestView::ForwardEvent { ic: *ic, event: *event },
                r,
            ),
    {
        self.issue(ic, ImRequest::ForwardEvent { ic: *ic, event: *event })
    }

    /// Asks the engine to commit `committed_str` to the client of `ic`.
    pub fn commit_string(&mut self, ic: &InputContext, committed_str: &CommittedString<'_>) -> (r:
        Result<(), ImError>)
        ensures
            old(self).issues(*final(self), *ic, commit_request(*ic, *committed_str), r),
    {
        self.issue(ic, ImRequest::commit(*ic, committed_str))
    }

    /// Asks the engine to tell the client of `ic` about a change of geometry.
    pub fn geometry_callback(&mut self, ic: &InputContext) -> (r: Result<(), ImError>)
        ensures
            old(self).issues(*final(self), *ic, ImRequestView::GeometryCallback { ic: *ic }, r),
    {
        self.issue(ic, ImRequest::GeometryCallback { ic: *ic })
    }

    /// Asks the engine to tell the client of `ic` that preediting starts.
    pub fn preedit_start_callback(&mut self, ic: &InputContext) -> (r: Result<(), ImError>)
        ensures
            old(self).issues(*final(self), *ic, ImRequestView::PreeditStartCallback { ic: *ic }, r),
    {
        self.issue(ic, ImRequest::PreeditStartCallback { ic: *ic })
    }

    /// Asks the engine to have the client of `ic` draw a preedit change.
    pub fn preedit_draw_callback(&mut self, ic: &InputContext, frame: &PreeditDrawMessage<'_>) -> (r:
        Result<(), ImError>)
        ensures
            old(self).issues(
                *final(self),
                *ic,
                ImRequestView::PreeditDrawCallback { ic: *ic, frame: preedit_draw_frame(*frame) },
                r,
            ),
    {
        self.issue(ic, ImRequest::PreeditDrawCallback { ic: *ic, frame: PreeditDrawFrame::new(frame) })
    }

    /// Asks the engine to have the client of `ic` move the preedit caret.
    pub fn preedit_caret_callback(&mut self, ic: &InputContext, frame: &PreeditCaretMessage) -> (r:
        Result<(), ImError>)
        ensures
            old(self).issues(
                *final(self),
                *ic,
                ImRequestView::PreeditCaretCallback { ic: *ic, frame: preedit_caret_frame(*frame) },
                r,
            ),
    {
        self.issue(
            ic,
            ImRequest::PreeditCaretCallback { ic: *ic, frame: PreeditCaretFrame::new(frame) },
        )
    }

    /// Asks the engine to tell the client of `ic` that preediting is done.
    pub fn preedit_done_callback(&mut self, ic: &InputContext) -> (r: Result<(), ImError>)
        ensures
            old(self).issues(*final(self), *ic, ImRequestView::PreeditDoneCallback { ic: *ic }, r),
    {
        self.issue(ic, ImRequest::PreeditDoneCallback { ic: *ic })
    }

    /// Asks the engine to tell the client of `ic` that the status starts.
    pub fn status_start_callback(&mut self, ic: &InputContext) -> (r: Result<(), ImError>)
        ensures
            old(self).issues(*final(self), *ic, ImRequestView::StatusStartCallback { ic: *ic }, r),
    {
        self.issue(ic, ImRequest::StatusStartCallback { ic: *ic })
    }

    /// Asks the engine to have the client of `ic` draw a status text.
    pub fn status_draw_text_callback(
        &mut self,
        ic: &InputContext,
        frame: &StatusDrawTextMessage<'_>,
    ) -> (r: Result<(), ImError>)
        ensures
            old(self).issues(
                *final(self),
                *ic,
                ImRequestView::StatusDrawTextCallback {
                    ic: *ic,
                    frame: status_draw_text_frame(*frame),
                },
                r,
            ),
    {
        self.issue(
            ic,
            ImRequest::StatusDrawTextCallback { ic: *ic, frame: StatusDrawTextFrame::new(frame) },
        )
    }

    /// Asks the engine to have the client of `ic` draw a status bitmap.
    pub fn status_draw_bitmap_callback(
        &mut self,
        ic: &InputContext,
        frame: &StatusDrawBitmapMessage,
    ) -> (r: Result<(), ImError>)
        ensures
            old(self).issues(
                *final(self),
                *ic,
                ImRequestView::StatusDrawBitmapCallback {
                    ic: *ic,
                    frame: status_draw_bitmap_frame(*frame),
                },
                r,
            ),
    {
        self.issue(
            ic,
            ImRequest::StatusDrawBitmapCallback { ic: *ic, frame: StatusDrawBitmapFrame::new(frame) },
        )
    }

    /// Asks the engine to tell the client of `ic` that the status is done.
    pub fn status_done_callback(&mut self, ic: &InputContext) -> (r: Result<(), ImError>)
        ensures
            old(self).issues(*final(self), *ic, ImRequestView::StatusDoneCallback { ic: *ic }, r),
    {
        self.issue(ic, ImRequest::StatusDoneCallback { ic: *ic })
    }

    /// Asks the engine to start preediting for `ic`.
    pub fn preedit_start(&mut self, ic: &InputContext) -> (r: Result<(), ImError>)
        ensures
            old(self).issues(*final(self), *ic, ImRequestView::PreeditStart { ic: *ic }, r),
    {
        self.issue(ic, ImRequest::PreeditStart { ic: *ic })
    }

    /// Asks the engine to end preediting for `ic`.
    pub fn preedit_end(&mut self, ic: &InputContext) -> (r: Result<(), ImError>)
        ensures
            old(self).issues(*final(self), *ic, ImRequestView::PreeditEnd { ic: *ic }, r),
    {
        self.issue(ic, ImRequest::PreeditEnd { ic: *ic })
    }

    /// Asks the engine to synchronise with an Xlib client of `ic`.
    pub fn sync_xlib(&mut self, ic: &InputContext) -> (r: Result<(), ImError>)
        ensures
            old(self).issues(*final(self), *ic, ImRequestView::SyncXlib { ic: *ic }, r),
    {
        self.issue(ic, ImRequest::SyncXlib { ic: *ic })
    }

    /// A request for a context that is not alive fails and asks nothing of
    /// the engine; one for a live context joins the queue at its end.
    pub proof fn lemma_liveness_gate(
        self,
        after: Self,
        ic: InputContext,
        request: ImRequestView,
        r: Result<(), ImError>,
    )
        requires
            self.issues(after, ic, request, r),
        ensures
            !self.live().contains(ic.addr()) ==> r == Err::<(), ImError>(ImError::DeadInputContext)
                && after.pending() == self.pending(),
            self.live().contains(ic.addr()) ==> r is Ok && after.pending().len()
                == self.pending().len() + 1 && after.pending().last() == request,
            r is Ok <==> self.live().contains(ic.addr()),
            after.live() == self.live(),
    {
    }
}

/// The numbers of a list of input styles, in order.
pub open spec fn style_bits(styles: Seq<InputStyle>) -> Seq<u32> {
    styles.map_values(|s: InputStyle| s@)
}

/// Whether `copy` holds the same byte strings as `list`, in order.
pub open spec fn same_strings(copy: Seq<Vec<u8>>, list: Seq<Vec<u8>>) -> bool {
    &&& copy.len() == list.len()
    &&& forall|i: int| 0 <= i < copy.len() ==> (#[trigger] copy[i])@ == list[i]@
}

/// What the engine is created with, ready to be handed over: each list with
/// its length as the engine's count field holds it.
#[derive(Debug, Clone)]
pub struct ImServerParams {
    pub screen: i32,
    pub server_window: xcb::Window,
    pub server_name: Vec<u8>,
    pub locale: Vec<u8>,
    pub n_styles: u32,
    pub input_styles: Vec<u32>,
    pub n_on_keys: u16,
    pub on_keys_list: Vec<XimTriggerKey>,
    pub n_off_keys: u16,
    pub off_keys_list: Vec<XimTriggerKey>,
    pub n_encodings: u16,
    pub encoding_list: Vec<Vec<u8>>,
    pub event_mask: u32,
}

impl ImServerParams {
    /// The parameters for a server on screen `screen` that answers under
    /// `server_name` for `locale`, offers `input_styles`, is switched on and
    /// off by the given key chords, and speaks the given encodings.
    pub fn new(
        screen: i32,
        server_window: xcb::Window,
        server_name: &[u8],
        locale: &[u8],
        input_styles: &[InputStyle],
        on_keys_list: &[XimTriggerKey],
        off_keys_list: &[XimTriggerKey],
        encoding_list: &[Vec<u8>],
        event_mask: u32,
    ) -> (r: Self)
        ensures
            r.screen == screen,
            r.server_window == server_window,
            r.server_name@ == server_name@,
            r.locale@ == locale@,
            r.n_styles == low_u32(input_styles@.len()),
            r.input_styles@ == style_bits(input_styles@),
            r.n_on_keys == low_u16(on_keys_list@.len()),
            r.on_keys_list@ == on_keys_list@,
            r.n_off_keys == low_u16(off_keys_list@.len()),
            r.off_keys_list@ == off_keys_list@,
            r.n_encodings == low_u16(encoding_list@.len()),
            same_strings(r.encoding_list@, encoding_list@),
            r.event_mask == event_mask,
    {
        let mut styles: Vec<u32> = Vec::new();
        let mut i: usize = 0;
        while i < input_styles.len()
            invariant
                i <= input_styles.len(),
                styles@ == style_bits(input_styles@.subrange(0, i as int)),
            decreases input_styles.len() - i,
        {
            styles.push(input_styles[i].bits());
            proof {
                assert(input_styles@.subrange(0, i + 1) == input_styles@.subrange(0, i as int).push(
                    input_styles@[i as int],
                ));
            }
            i = i + 1;
        }
        proof {
            assert(input_styles@.subrange(0, i as int) == input_styles@);
        }
        let mut encodings: Vec<Vec<u8>> = Vec::new();
        let mut j: usize = 0;
        while j < encoding_list.len()
            invariant
                j <= encoding_list.len(),
                encodings.len() == j,
                forall|k: int| 0 <= k < j ==> (#[trigger] encodings@[k])@ == encoding_list@[k]@,
            decreases encoding_list.len() - j,
        {
            encodings.push(slice_to_vec(encoding_list[j].as_slice()));
            j = j + 1;
        }
        ImServerParams {
            screen,
            server_window,
            server_name: slice_to_vec(server_name),
            locale: slice_to_vec(locale),
            n_styles: len_to_u32(input_styles.len()),
            input_styles: styles,
            n_on_keys: len_to_u16(on_keys_list.len()),
            on_keys_list: slice_to_vec(on_keys_list),
            n_off_keys: len_to_u16(off_keys_list.len()),
            off_keys_list: slice_to_vec(off_keys_list),
            n_encodings: len_to_u16(encoding_list.len()),
            encoding_list: encodings,
            event_mask,
        }
    }
}

/// One step of taking the engine down.
#[derive(Debug, Clone, Copy, PartialEq, Eq, Structural)]
pub enum ShutdownStep {
    Close,
    Destroy,
}

/// The input contexts that are alive while the handler of an event runs: a
/// context that the event creates is alive already, and one that it destroys
/// is alive still.
pub open spec fn live_during(live: Set<usize>, major_opcode: u8, ic: usize) -> Set<usize> {
    if major_opcode == XCB_XIM_CREATE_IC && ic != 0 {
        live.insert(ic)
    } else {
        live
    }
}

/// The input contexts that are alive once an event has been dispatched.
pub open spec fn live_after(live: Set<usize>, major_opcode: u8, ic: usize) -> Set<usize> {
    if major_opcode == XCB_XIM_CREATE_IC && ic != 0 {
        live.insert(ic)
    } else if major_opcode == XCB_XIM_DESTROY_IC && ic != 0 {
        live.remove(ic)
    } else {
        live
    }
}

/// The life of an input context: it is alive from the event that creates it,
/// the handler of that event included, through every other event, up to and
/// including the handler of the event that destroys it, and not after. No
/// other event brings a context to life.
pub proof fn lemma_context_lifetime(live: Set<usize>, ic: usize, major_opcode: u8, other: usize)
    requires
        ic != 0,
    ensures
        live_during(live, XCB_XIM_CREATE_IC, ic).contains(ic),
        live_after(live, XCB_XIM_CREATE_IC, ic).contains(ic),
        live.contains(ic) ==> live_during(live, major_opcode, other).contains(ic),
        live.contains(ic) && !(major_opcode == XCB_XIM_DESTROY_IC && other == ic) ==> live_after(
            live,
            major_opcode,
            other,
        ).contains(ic),
        !live_after(live, XCB_XIM_DESTROY_IC, ic).contains(ic),
        !live.contains(ic) && !(major_opcode == XCB_XIM_CREATE_IC && other == ic) ==> !live_after(
            live,
            major_opcode,
            other,
        ).contains(ic) && !live_during(live, major_opcode, other).contains(ic),
{
}

/// The event that the engine reports with the given raw handles, operation
/// codes and buffers. A null handle names nobody.
pub open spec fn raw_args(
    client: usize,
    ic: usize,
    major_opcode: u8,
    minor_opcode: u8,
    frame: RawFrame,
) -> RawCallbackArgs {
    RawCallbackArgs {
        client: ImClient::resolve(client),
        ic: InputContext::resolve(ic),
        major_opcode,
        minor_opcode,
        frame,
    }
}

/// Whether every request of `requests` is about a context in `live`.
pub open spec fn all_live(requests: Seq<ImRequest>, live: Set<usize>) -> bool {
    forall|i: int| 0 <= i < requests.len() ==> live.contains((#[trigger] requests[i])@.target().addr())
}

/// The test that a request is about a context in `live`.
pub open spec fn targets_live(live: Set<usize>) -> spec_fn(ImRequest) -> bool {
    |q: ImRequest| live.contains(q@.target().addr())
}

/// The requests of `queued` that are about a live context, in their order.
/// A queue that was filled through a handle on this registry holds no other,
/// and comes back whole; a request that reached the queue by any other way
/// for a context that is not alive is dropped here, before the engine sees
/// it.
pub fn live_requests(input_contexts: &InputContextRegistry, queued: Vec<ImRequest>) -> (r: Vec<
    ImRequest,
>)
    ensures
        r@ == queued@.filter(targets_live(input_contexts@)),
        all_live(r@, input_contexts@),
        all_live(queued@, input_contexts@) ==> r@ == queued@,
{
    let ghost alive = targets_live(input_contexts@);
    let ghost mut done: Seq<ImRequest> = Seq::empty();
    let mut rest = queued;
    let mut kept: Vec<ImRequest> = Vec::new();
    while rest.len() > 0
        invariant
            alive == targets_live(input_contexts@),
            done + rest@ == queued@,
            kept@ == done.filter(alive),
            all_live(kept@, input_contexts@),
            all_live(queued@, input_contexts@) ==> kept@ == done,
        decreases rest.len(),
    {
        let ghost before = rest@;
        let request = rest.remove(0);
        let target = request.input_context();
        proof {
            let next = done.push(request);
            assert(before == seq![request] + rest@);
            assert(next + rest@ == done + before);
            assert(next.drop_last() == done);
            assert(next.filter(alive) == if alive(request) {
                done.filter(alive).push(request)
            } else {
                done.filter(alive)
            }) by {
                reveal(Seq::filter);
            }
            if all_live(queued@, input_contexts@) {
                assert(queued@[done.len() as int] == request);
            }
            done = next;
        }
        if input_contexts.contains(&target) {
            kept.push(request);
        }
    }
    proof {
        assert(done + rest@ == done);
    }
    kept
}

/// What the dispatch of one event leaves for the caller to do: the outcome,
/// with what goes into the engine's reply slot, and the requests that the
/// handler made, oldest first, for the engine to carry out.
#[derive(Debug)]
pub struct Dispatch {
    pub result: Result<CallbackOutcome, ImError>,
    pub requests: Vec<ImRequest>,
}

/// An input method server: the engine instance that it speaks to, the
/// handler of its messages, and the registry of its live input contexts.
#[derive(Debug)]
pub struct ImServer<H: ImMessageHandler> {
    im: usize,
    handler: H,
    input_contexts: InputContextRegistry,
    close_on_drop: bool,
    strictness: Strictness,
}

impl<H: ImMessageHandler> ImServer<H> {
    /// The address of the engine instance.
    pub closed spec fn im_addr(&self) -> usize {
        self.im
    }

    /// The input contexts that are alive.
    pub closed spec fn live(&self) -> Set<usize> {
        self.input_contexts@
    }

    /// Whether the engine is closed before it is destroyed.
    pub closed spec fn closes_on_drop(&self) -> bool {
        self.close_on_drop
    }

    /// How strictly anomalies are taken.
    pub closed spec fn strictness(&self) -> Strictness {
        self.strictness
    }

    /// The handler.
    pub closed spec fn handler_view(&self) -> H {
        self.handler
    }

    /// The server on the engine instance at `im`, which the engine returned
    /// when it was created. A null address means that the engine could not be
    /// created. The new server has no live input context and does not close
    /// the engine when it is taken down.
    pub fn create(im: usize, handler: H, strictness: Strictness) -> (r: Result<Self, ImError>)
        ensures
            r is Ok <==> im != 0,
            r matches Err(e) ==> e == ImError::ConstructionFailed,
            r matches Ok(server) ==> server.im_addr() == im && server.live() == Set::<
                usize,
            >::empty() && !server.closes_on_drop() && server.strictness() == strictness
                && server.handler_view() == handler,
    {
        if im != 0 {
            Ok(
                ImServer {
                    im,
                    handler,
                    input_contexts: InputContextRegistry::new(),
                    close_on_drop: false,
                    strictness,
                },
            )
        } else {
            Err(ImError::ConstructionFailed)
        }
    }

    /// The result of opening the engine, from the engine's answer.
    pub fn open(&self, engine_opened: bool) -> (r: Result<(), ImError>)
        ensures
            r == if engine_opened {
                Ok::<(), ImError>(())
            } else {
                Err::<(), ImError>(ImError::OpenFailed)
            },
    {
        if engine_opened {
            Ok(())
        } else {
            Err(ImError::OpenFailed)
        }
    }

    /// Sets whether the engine is closed before it is destroyed.
    pub fn close_on_drop(&mut self, enabled: bool)
        ensures
            final(self).closes_on_drop() == enabled,
            final(self).im_addr() == old(self).im_addr(),
            final(self).live() == old(self).live(),
            final(self).strictness() == old(self).strictness(),
            final(self).handler_view() == old(self).handler_view(),
    {
        self.close_on_drop = enabled;
    }

    /// Sets how strictly anomalies are taken.
    pub fn set_strictness(&mut self, strictness: Strictness)
        ensures
            final(self).strictness() == strictness,
            final(self).im_addr() == old(self).im_addr(),
            final(self).live() == old(self).live(),
            final(self).closes_on_drop() == old(self).closes_on_drop(),
            final(self).handler_view() == old(self).handler_view(),
    {
        self.strictness = strictness;
    }

    /// The steps that take the engine down, in order: it is closed first if
    /// that was asked for, and destroyed in any case.
    pub fn shutdown_steps(&self) -> (r: Vec<ShutdownStep>)
        ensures
            r@ == if self.closes_on_drop() {
                seq![ShutdownStep::Close, ShutdownStep::Destroy]
            } else {
                seq![ShutdownStep::Destroy]
            },
    {
        let mut steps: Vec<ShutdownStep> = Vec::new();
        if self.close_on_drop {
            steps.push(ShutdownStep::Close);
        }
        steps.push(ShutdownStep::Destroy);
        steps
    }

    /// The address of the engine instance.
    pub fn get_im_ptr(&self) -> (r: usize)
        ensures
            r == self.im_addr(),
    {
        self.im
    }

    /// The handler.
    pub fn handler(&self) -> (r: &H)
        ensures
            *r == self.handler_view(),
    {
        &self.handler
    }

    /// How strictly anomalies are taken.
    pub fn get_strictness(&self) -> (r: Strictness)
        ensures
            r == self.strictness(),
    {
        self.strictness
    }

    /// Whether the engine is closed before it is destroyed.
    pub fn is_closed_on_drop(&self) -> (r: bool)
        ensures
            r == self.closes_on_drop(),
    {
        self.close_on_drop
    }

    /// Whether the input context `ic` is alive.
    pub fn contains(&self, ic: &InputContext) -> (r: bool)
        ensures
            r == self.live().contains(ic.addr()),
    {
        self.input_contexts.contains(ic)
    }

    /// A handle for making requests, with an empty queue.
    pub fn as_ref(&self) -> (r: ImServerRef<'_>)
        ensures
            r.im_addr() == self.im_addr(),
            r.live() == self.live(),
            r.pending() == Seq::<ImRequestView>::empty(),
    {
        ImServerRef::new(self.im, &self.input_contexts)
    }

    /// The entry point for the engine's callback: dispatches one event.
    ///
    /// An event from another engine instance than the server's own is an
    /// error under `Strict` and is passed over under `Tolerant`; it changes
    /// nothing. For every other event the registry is kept first: a context
    /// that the event creates enters before the handler runs, and one that it
    /// destroys leaves after the handler has returned, whatever became of the
    /// message. In between the event is dispatched as `handle_callback` says,
    /// on a handle that sees the registry of that moment and has an empty
    /// queue: a message that is delivered is handed to the handler method of
    /// its kind, once. The requests that come back are those that the handler
    /// left in the queue, in their order, but for any about a context that
    /// was not alive at that moment.
    pub fn im_callback(
        &mut self,
        im: usize,
        client: usize,
        ic: usize,
        major_opcode: u8,
        minor_opcode: u8,
        frame: RawFrame,
    ) -> (r: Dispatch)
        ensures
            final(self).im_addr() == old(self).im_addr(),
            final(self).closes_on_drop() == old(self).closes_on_drop(),
            final(self).strictness() == old(self).strictness(),
            im != old(self).im_addr() ==> {
                &&& final(self).live() == old(self).live()
                &&& final(self).handler_view() == old(self).handler_view()
                &&& r.requests@.len() == 0
                &&& r.result == if old(self).strictness() == Strictness::Strict {
                    Err::<CallbackOutcome, ImError>(ImError::UnexpectedIm)
                } else {
                    Ok::<CallbackOutcome, ImError>(CallbackOutcome::Ignored)
                }
            },
            all_live(r.requests@, live_during(old(self).live(), major_opcode, ic)),
            im == old(self).im_addr() ==> {
                &&& final(self).live() == live_after(old(self).live(), major_opcode, ic)
                &&& match verdict(
                    live_during(old(self).live(), major_opcode, ic),
                    raw_args(client, ic, major_opcode, minor_opcode, frame),
                    old(self).strictness(),
                ) {
                    Verdict::Reject(e) => r.result == Err::<CallbackOutcome, ImError>(e)
                        && r.requests@.len() == 0 && final(self).handler_view() == old(
                        self,
                    ).handler_view(),
                    Verdict::Ignore => r.result == Ok::<CallbackOutcome, ImError>(
                        CallbackOutcome::Ignored,
                    ) && r.requests@.len() == 0 && final(self).handler_view() == old(
                        self,
                    ).handler_view(),
                    Verdict::Deliver => r.result matches Ok(outcome) && outcome.answers(
                        MessageKind::of(major_opcode, minor_opcode),
                    ) && exists|
                        h: &mut H,
                        i: &mut ImServerRef<'_>,
                        reply_frame: &mut CreateIcReplyMessage,
                    |
                        {
                            &&& *h == old(self).handler_view()
                            &&& *final(h) == final(self).handler_view()
                            &&& (*i).im_addr() == im
                            &&& (*i).live() == live_during(old(self).live(), major_opcode, ic)
                            &&& (*i).pending() == Seq::<ImRequestView>::empty()
                            &&& #[trigger] handed(
                                h,
                                i,
                                reply_frame,
                                *final(reply_frame),
                                raw_args(client, ic, major_opcode, minor_opcode, frame).client->0,
                                raw_args(client, ic, major_opcode, minor_opcode, frame).ic->0,
                                frame,
                                outcome,
                            )
                            &&& exists|taken: Seq<ImRequest>|
                                #[trigger] request_views(taken) == (*final(i)).pending()
                                    && r.requests@ == taken.filter(
                                    targets_live(live_during(old(self).live(), major_opcode, ic)),
                                )
                        },
                }
            },
    {
        if im != self.im {
            let result = match self.strictness {
                Strictness::Strict => Err(ImError::UnexpectedIm),
                Strictness::Tolerant => Ok(CallbackOutcome::Ignored),
            };
            return Dispatch { result, requests: Vec::new() };
        }
        let ic_opt = InputContext::from_ptr(ic);
        let args = RawCallbackArgs {
            client: ImClient::from_ptr(client),
            ic: ic_opt,
            major_opcode,
            minor_opcode,
            frame,
        };
        let mut destroyed_ic: Option<InputContext> = None;
        if let Some(context) = ic_opt {
            if major_opcode == XCB_XIM_CREATE_IC {
                self.input_contexts.insert(context);
            } else if major_opcode == XCB_XIM_DESTROY_IC {
                destroyed_ic = Some(context);
            }
        }
        let mut handle = ImServerRef::new(self.im, &self.input_contexts);
        let result = handle_callback(&mut handle, &args, &mut self.handler, self.strictness);
        let queued = handle.take_requests();
        let requests = live_requests(&self.input_contexts, queued);
        if let Some(context) = destroyed_ic {
            self.input_contexts.remove(&context);
        }
        Dispatch { result, requests }
    }
}

} // verus!
