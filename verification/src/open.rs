//! Opening a device, step by step.
//!
//! The backend performs the native calls; an [`OpenRequest`] decides which
//! call comes next and what its result means. A request never asks to open a
//! device that it knows to be open: a device that is found open is either
//! refused or closed first, as the policy says.

use vstd::prelude::*;
use vstd::pervasive::unreached;
use async_channel::Receiver;
use crate::channel::InputBridge;
use crate::descriptor::ObjectKind;
use crate::device::BackendDeviceReader;
use crate::device::BackendDeviceWriter;
use crate::device::DeviceReader;
use crate::device::DeviceWriter;
use crate::device_info::DeviceInfo;
use crate::device_info::DeviceInfoView;
use crate::error::HidError;
use crate::error::HidErrorView;
use crate::error::HidResult;
use crate::error::unit_result_view;
use crate::handle::HandleView;
use crate::handle::SharedHandle;
use crate::report::Report;

verus! {

/// For what a device is opened.
#[derive(Debug, Clone, Copy, PartialEq, Eq, Structural)]
pub enum OpenMode {
    /// For a reader alone.
    ReadOnly,
    /// For a reader and a writer that share the device.
    ReadWrite,
}

/// What becomes of an open that finds the device open already.
#[derive(Debug, Clone, Copy, PartialEq, Eq, Structural)]
pub enum OpenPolicy {
    /// The open fails with `AlreadyInUse`.
    Exclusive,
    /// The earlier open is closed, and the device is opened again.
    Supersede,
}

/// How far an [`OpenRequest`] has come.
#[derive(Debug, Clone, Copy, PartialEq, Eq, Structural)]
pub enum OpenPhase {
    /// The request waits for what the platform reports of the device.
    Probing,
    /// The request waits for the close of an earlier open.
    ClosingPrior,
    /// The request waits for the native open.
    Opening,
    /// The device is open.
    Ready,
    /// The request has failed.
    Failed,
}

/// What the platform reports of a device that is about to be opened.
#[derive(Debug, Clone, Copy, PartialEq, Eq, Structural)]
pub struct Probe {
    /// What kind of value the identity of the device resolves to.
    pub kind: ObjectKind,
    /// Whether that value is a HID device.
    pub is_hid_device: bool,
    /// Whether the device is open already.
    pub opened: bool,
}

/// What the backend reports to an [`OpenRequest`].
#[derive(Debug)]
pub enum OpenEvent {
    /// The platform was asked about the device.
    Probed(Probe),
    /// The close of the earlier open has ended, well or with an error.
    PriorClosed(HidResult<()>),
    /// The native open has ended, well or with an error.
    Opened(HidResult<()>),
}

/// The mathematical value of an [`OpenEvent`].
pub enum OpenEventView {
    Probed(Probe),
    PriorClosed(Result<(), HidErrorView>),
    Opened(Result<(), HidErrorView>),
}

impl View for OpenEvent {
    type V = OpenEventView;

    open spec fn view(&self) -> OpenEventView {
        match self {
            OpenEvent::Probed(probe) => OpenEventView::Probed(*probe),
            OpenEvent::PriorClosed(result) => OpenEventView::PriorClosed(
                unit_result_view(*result),
            ),
            OpenEvent::Opened(result) => OpenEventView::Opened(unit_result_view(*result)),
        }
    }
}

/// What the backend has to do next for an [`OpenRequest`].
pub enum NextStep {
    /// Close the earlier open of the device, and report `PriorClosed`.
    ClosePrior,
    /// Attach the bridge to the platform's input events, so that each
    /// incoming report is published on it; then open the device, and report
    /// `Opened`.
    AttachBridgeThenOpen(InputBridge),
    /// Nothing more: the device is open, and the request can be finished.
    Finish,
}

/// The mathematical value of a [`NextStep`].
pub enum NextStepView {
    ClosePrior,
    AttachBridgeThenOpen,
    Finish,
}

impl View for NextStep {
    type V = NextStepView;

    open spec fn view(&self) -> NextStepView {
        match self {
            NextStep::ClosePrior => NextStepView::ClosePrior,
            NextStep::AttachBridgeThenOpen(_) => NextStepView::AttachBridgeThenOpen,
            NextStep::Finish => NextStepView::Finish,
        }
    }
}

/// The mathematical value of the result of a step.
pub open spec fn step_result_view(result: HidResult<NextStep>) -> Result<
    NextStepView,
    HidErrorView,
> {
    match result {
        Ok(next) => Ok(next@),
        Err(error) => Err(error@),
    }
}

/// The mathematical value of an [`OpenRequest`].
pub struct OpenView {
    /// The record of the device.
    pub device: DeviceInfoView,
    /// For what the device is opened.
    pub mode: OpenMode,
    /// What becomes of the request where the device is open already.
    pub policy: OpenPolicy,
    /// How far the request has come.
    pub phase: OpenPhase,
    /// Whether an earlier open of the device is live, as far as the request
    /// knows.
    pub prior_open: bool,
}

impl OpenView {
    /// Whether the open of this request is live.
    pub open spec fn own_open(self) -> bool {
        self.phase == OpenPhase::Ready
    }

    /// The number of live native resources of the device that the request
    /// knows of.
    pub open spec fn live_resources(self) -> nat {
        (if self.prior_open {
            1nat
        } else {
            0nat
        }) + (if self.own_open() {
            1nat
        } else {
            0nat
        })
    }

    /// What holds of every request: an earlier open is known to be live only
    /// while the request waits for its close, or after the request has
    /// failed.
    pub open spec fn single_owner(self) -> bool {
        self.prior_open ==> self.phase == OpenPhase::ClosingPrior || self.phase
            == OpenPhase::Failed
    }

    /// The request with another phase and another knowledge of the earlier
    /// open.
    pub open spec fn moved(self, phase: OpenPhase, prior_open: bool) -> OpenView {
        OpenView { phase, prior_open, ..self }
    }

    /// Whether the request waits for `event`.
    pub open spec fn expects(self, event: OpenEventView) -> bool {
        match event {
            OpenEventView::Probed(_) => self.phase == OpenPhase::Probing,
            OpenEventView::PriorClosed(_) => self.phase == OpenPhase::ClosingPrior,
            OpenEventView::Opened(_) => self.phase == OpenPhase::Opening,
        }
    }

    /// The request after `event`, and what the backend has to do next, or
    /// the error with which the open fails.
    ///
    /// An identity that does not resolve to a HID device fails with
    /// `NotFound`. A device that is open already fails with `AlreadyInUse`
    /// under the exclusive policy, and is closed first under the other. An
    /// error of a native call fails the request with that error.
    pub open spec fn stepped(self, event: OpenEventView) -> (
        OpenView,
        Result<NextStepView, HidErrorView>,
    ) {
        match event {
            OpenEventView::Probed(probe) => {
                if probe.kind != ObjectKind::Object || !probe.is_hid_device {
                    (self.moved(OpenPhase::Failed, false), Err(HidErrorView::NotFound))
                } else if !probe.opened {
                    (
                        self.moved(OpenPhase::Opening, false),
                        Ok(NextStepView::AttachBridgeThenOpen),
                    )
                } else if self.policy == OpenPolicy::Exclusive {
                    (self.moved(OpenPhase::Failed, true), Err(HidErrorView::AlreadyInUse))
                } else {
                    (self.moved(OpenPhase::ClosingPrior, true), Ok(NextStepView::ClosePrior))
                }
            },
            OpenEventView::PriorClosed(result) => match result {
                Ok(_) => (
                    self.moved(OpenPhase::Opening, false),
                    Ok(NextStepView::AttachBridgeThenOpen),
                ),
                Err(error) => (self.moved(OpenPhase::Failed, true), Err(error)),
            },
            OpenEventView::Opened(result) => match result {
                Ok(_) => (self.moved(OpenPhase::Ready, false), Ok(NextStepView::Finish)),
                Err(error) => (self.moved(OpenPhase::Failed, false), Err(error)),
            },
        }
    }
}

/// A request to open one device.
#[derive(Debug)]
pub struct OpenRequest {
    device_info: DeviceInfo,
    mode: OpenMode,
    policy: OpenPolicy,
    phase: OpenPhase,
    prior_open: bool,
    queue: Option<Receiver<Report>>,
}

/// An open device: its reader, its writer where it was opened for one, and
/// the handle that they share.
#[derive(Debug)]
pub struct OpenedDevice {
    pub reader: DeviceReader,
    pub writer: Option<DeviceWriter>,
    pub handle: SharedHandle,
}

impl View for OpenRequest {
    type V = OpenView;

    closed spec fn view(&self) -> OpenView {
        OpenView {
            device: self.device_info@,
            mode: self.mode,
            policy: self.policy,
            phase: self.phase,
            prior_open: self.prior_open,
        }
    }
}

impl OpenRequest {
    #[verifier::type_invariant]
    spec fn valid(self) -> bool {
        &&& self.phase == OpenPhase::Opening || self.phase == OpenPhase::Ready
            ==> self.queue is Some
        &&& self@.single_owner()
    }

    /// The receiving side of the queue that the request has attached to the
    /// bridge for its reader, once it has.
    pub closed spec fn attached(&self) -> Option<Receiver<Report>> {
        self.queue
    }

    /// A request to open the device of `device_info`, which waits for what
    /// the platform reports of the device.
    pub fn new(device_info: &DeviceInfo, mode: OpenMode, policy: OpenPolicy) -> (request:
        OpenRequest)
        ensures
            request@ == (OpenView {
                device: device_info@,
                mode,
                policy,
                phase: OpenPhase::Probing,
                prior_open: false,
            }),
            request.attached() is None,
    {
        OpenRequest {
            device_info: device_info.duplicate(),
            mode,
            policy,
            phase: OpenPhase::Probing,
            prior_open: false,
            queue: None,
        }
    }

    /// How far the request has come.
    pub fn phase(&self) -> (phase: OpenPhase)
        ensures
            phase == self@.phase,
    {
        self.phase
    }

    /// For what the device is opened.
    pub fn mode(&self) -> (mode: OpenMode)
        ensures
            mode == self@.mode,
    {
        self.mode
    }

    /// What becomes of the request where the device is open already.
    pub fn policy(&self) -> (policy: OpenPolicy)
        ensures
            policy == self@.policy,
    {
        self.policy
    }

    /// The record of the device.
    pub fn device_info(&self) -> (info: &DeviceInfo)
        ensures
            info@ == self@.device,
    {
        &self.device_info
    }

    /// Whether the request waits for `event`.
    pub fn expects(&self, event: &OpenEvent) -> (expected: bool)
        ensures
            expected == self@.expects(event@),
    {
        match event {
            OpenEvent::Probed(_) => self.phase == OpenPhase::Probing,
            OpenEvent::PriorClosed(_) => self.phase == OpenPhase::ClosingPrior,
            OpenEvent::Opened(_) => self.phase == OpenPhase::Opening,
        }
    }

    /// Takes `event` and returns what the backend has to do next, or the
    /// error with which the open has failed.
    pub fn step(&mut self, event: OpenEvent) -> (next: HidResult<NextStep>)
        requires
            old(self)@.expects(event@),
        ensures
            (final(self)@, step_result_view(next)) == old(self)@.stepped(event@),
            next matches Ok(NextStep::AttachBridgeThenOpen(bridge)) ==> bridge.queue_count() == 1,
            if next matches Ok(NextStep::AttachBridgeThenOpen(_)) {
                final(self).attached() is Some
            } else {
                final(self).attached() == old(self).attached()
            },
    {
        proof {
            use_type_invariant(&*self);
        }
        match event {
            OpenEvent::Probed(probe) => {
                let resolves = match probe.kind {
                    ObjectKind::Object => probe.is_hid_device,
                    _ => false,
                };
                if !resolves {
                    self.phase = OpenPhase::Failed;
                    Err(HidError::NotFound)
                } else if !probe.opened {
                    Ok(self.attach_bridge())
                } else {
                    match self.policy {
                        OpenPolicy::Exclusive => {
                            self.phase = OpenPhase::Failed;
                            self.prior_open = true;
                            Err(HidError::AlreadyInUse)
                        },
                        OpenPolicy::Supersede => {
                            self.phase = OpenPhase::ClosingPrior;
                            self.prior_open = true;
                            Ok(NextStep::ClosePrior)
                        },
                    }
                }
            },
            OpenEvent::PriorClosed(result) => match result {
                Ok(_) => {
                    self.prior_open = false;
                    Ok(self.attach_bridge())
                },
                Err(error) => {
                    self.phase = OpenPhase::Failed;
                    self.prior_open = true;
                    Err(error)
                },
            },
            OpenEvent::Opened(result) => match result {
                Ok(_) => {
                    self.phase = OpenPhase::Ready;
                    Ok(NextStep::Finish)
                },
                Err(error) => {
                    self.phase = OpenPhase::Failed;
                    Err(error)
                },
            },
        }
    }

    /// Makes the bridge with the queue of the reader, and goes on to wait
    /// for the native open.
    fn attach_bridge(&mut self) -> (next: NextStep)
        requires
            !old(self).prior_open,
        ensures
            final(self)@ == old(self)@.moved(OpenPhase::Opening, false),
            next matches NextStep::AttachBridgeThenOpen(bridge) && bridge.queue_count() == 1,
            final(self).attached() is Some,
    {
        let mut bridge = InputBridge::new();
        self.queue = Some(bridge.attach());
        self.phase = OpenPhase::Opening;
        NextStep::AttachBridgeThenOpen(bridge)
    }

    /// Makes the reader, the writer where the device was opened for one, and
    /// the handle that they share.
    pub fn finish(self) -> (opened: OpenedDevice)
        requires
            self@.phase == OpenPhase::Ready,
        ensures
            opened.reader.info() == self@.device,
            self.attached() == Some(opened.reader.queue()),
            opened.writer is Some <==> self@.mode == OpenMode::ReadWrite,
            opened.writer matches Some(writer) ==> writer.info() == self@.device,
            opened.handle@ == (HandleView {
                readers: 1,
                writers: if self@.mode == OpenMode::ReadWrite {
                    1nat
                } else {
                    0nat
                },
            }),
    {
        proof {
            use_type_invariant(&self);
        }
        let with_writer = match self.mode {
            OpenMode::ReadWrite => true,
            OpenMode::ReadOnly => false,
        };
        let writer = if with_writer {
            Some(DeviceWriter::new(BackendDeviceWriter::new(), self.device_info.duplicate()))
        } else {
            None
        };
        let queue = match self.queue {
            Some(queue) => queue,
            None => unreached(),
        };
        let reader = DeviceReader::new(BackendDeviceReader::new(queue), self.device_info);
        OpenedDevice { reader, writer, handle: SharedHandle::opened(with_writer) }
    }
}

/// A request to open the device of `device_info` for a reader.
pub fn open_readonly(device_info: &DeviceInfo, policy: OpenPolicy) -> (request: OpenRequest)
    ensures
        request@ == (OpenView {
            device: device_info@,
            mode: OpenMode::ReadOnly,
            policy,
            phase: OpenPhase::Probing,
            prior_open: false,
        }),
        request.attached() is None,
{
    OpenRequest::new(device_info, OpenMode::ReadOnly, policy)
}

/// A request to open the device of `device_info` for a reader and a writer
/// that share it.
pub fn open(device_info: &DeviceInfo, policy: OpenPolicy) -> (request: OpenRequest)
    ensures
        request@ == (OpenView {
            device: device_info@,
            mode: OpenMode::ReadWrite,
            policy,
            phase: OpenPhase::Probing,
            prior_open: false,
        }),
        request.attached() is None,
{
    OpenRequest::new(device_info, OpenMode::ReadWrite, policy)
}

impl DeviceInfo {
    /// A request to open this device for a reader: see [`open_readonly`].
    pub fn open_readonly(&self, policy: OpenPolicy) -> (request: OpenRequest)
        ensures
            request@ == (OpenView {
                device: self@,
                mode: OpenMode::ReadOnly,
                policy,
                phase: OpenPhase::Probing,
                prior_open: false,
            }),
            request.attached() is None,
    {
        open_readonly(self, policy)
    }

    /// A request to open this device for a reader and a writer that share
    /// it: see [`open`].
    pub fn open(&self, policy: OpenPolicy) -> (request: OpenRequest)
        ensures
            request@ == (OpenView {
                device: self@,
                mode: OpenMode::ReadWrite,
                policy,
                phase: OpenPhase::Probing,
                prior_open: false,
            }),
            request.attached() is None,
    {
        open(self, policy)
    }
}

/// The request after those events of `events` that it waits for at their
/// turn; it stops at the first that it does not wait for.
pub open spec fn ran(state: OpenView, events: Seq<OpenEventView>) -> OpenView
    decreases events.len(),
{
    if events.len() == 0 || !state.expects(events[0]) {
        state
    } else {
        ran(state.stepped(events[0]).0, events.drop_first())
    }
}

/// A step never leaves two live native resources of one device behind: the
/// native open is asked for only when no earlier open is live, and a device
/// that is found open is refused with `AlreadyInUse` or closed first, as the
/// policy says.
pub proof fn lemma_step_keeps_single_owner(state: OpenView, event: OpenEventView)
    requires
        state.single_owner(),
        state.expects(event),
    ensures
        state.stepped(event).0.single_owner(),
        state.stepped(event).0.live_resources() <= 1,
        state.stepped(event).1 == Ok::<NextStepView, HidErrorView>(
            NextStepView::AttachBridgeThenOpen,
        ) ==> !state.stepped(event).0.prior_open && state.stepped(event).0.live_resources() == 0,
        state.stepped(event).1 is Err <==> state.stepped(event).0.phase == OpenPhase::Failed,
        state.stepped(event).1 == Ok::<NextStepView, HidErrorView>(NextStepView::Finish)
            <==> state.stepped(event).0.phase == OpenPhase::Ready,
        event matches OpenEventView::Probed(probe) && probe.kind == ObjectKind::Object
            && probe.is_hid_device && probe.opened ==> state.stepped(event).1 == (
        if state.policy == OpenPolicy::Exclusive {
            Err::<NextStepView, HidErrorView>(HidErrorView::AlreadyInUse)
        } else {
            Ok::<NextStepView, HidErrorView>(NextStepView::ClosePrior)
        }),
{
}

/// Whatever the backend reports to a request, and however far the request
/// comes, at most one native resource of the device is live.
pub proof fn lemma_never_two_live_resources(state: OpenView, events: Seq<OpenEventView>)
    requires
        state.single_owner(),
    ensures
        ran(state, events).single_owner(),
        ran(state, events).live_resources() <= 1,
    decreases events.len(),
{
    if events.len() > 0 && state.expects(events[0]) {
        lemma_step_keeps_single_owner(state, events[0]);
        lemma_never_two_live_resources(state.stepped(events[0]).0, events.drop_first());
    }
}

} // verus!
