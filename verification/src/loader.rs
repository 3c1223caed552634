//! The scene composer: one load session from address to attachment.
//!
//! The composer never touches the network, the decoder or the scene. It is
//! told what happened and answers what to do next, so the host runs the
//! loop: it performs the command and reports the outcome as the next event.
//! A session walks through the phases in order and stops at the first
//! failure; nothing is attached unless every stage succeeded.
//!
//! Only one session runs at a time. A request to start another while one is
//! under way is rejected and changes nothing; once the session is done,
//! whatever its outcome, the next may start.

use vstd::prelude::*;
use crate::decoder::{DecodeError, DecodedAsset, RootNode};
use crate::environment::{detect, mode_of, EnvironmentMode, PrimaryInterface};
use crate::fetch::{fetch_status, FetchResult, FetchStatus};
use crate::orientation::{correct_model_orientation, corrected_pose, NodePose, QUARTER_TURN};
use crate::player::Player3D;
use crate::vector::{vec3, Vec3};

verus! {

/// Where the asset goes.
#[derive(Clone, Copy, Debug, PartialEq, Eq, Structural)]
pub enum Attachment {
    /// Directly under the immersive rig that the host already has.
    UnderImmersiveRig { root: RootNode },
    /// Under a new desktop controller, which in turn joins the scene.
    UnderDesktopController { controller: Player3D, root: RootNode },
}

/// Why a session ended without an attachment, or why an event was refused.
#[derive(Clone, Copy, Debug, PartialEq, Eq, Structural)]
pub enum SessionError {
    /// A session is under way; the new one was not started.
    SessionInProgress,
    /// The current phase does not wait for this event; it was ignored.
    OutOfTurn,
    Transport,
    Http { code: i64 },
    Decode { code: i64 },
    /// The payload decoded to a scene without a root. Nothing is wrong and
    /// nothing is attached.
    EmptyScene,
}

/// How a finished session ended.
#[derive(Clone, Copy, Debug, PartialEq, Eq, Structural)]
pub enum SessionOutcome {
    Attached(EnvironmentMode),
    Failed(SessionError),
}

/// Where a composer stands.
#[derive(Clone, Copy, Debug, PartialEq, Eq, Structural)]
pub enum Phase {
    /// No session was started yet.
    Idle,
    /// The fetch is outstanding.
    Fetching,
    /// The payload is with the decoder.
    Decoding,
    /// The corrected root waits for the look at the host's display.
    Detecting { root: RootNode },
    /// The session is over.
    Done { outcome: SessionOutcome },
}

/// What the host must do next.
#[derive(Debug)]
pub enum Command {
    /// Issue one GET to the address and report its completion.
    Fetch { address: String },
    /// Hand the payload to the decoder and report what it made of it.
    Decode { payload: Vec<u8>, base_path: String },
    /// Look at the primary display interface, once, and report it.
    DetectEnvironment,
    /// Attach the asset. The session is over.
    Attach(Attachment),
}

/// A command as contracts see it.
pub enum CommandView {
    Fetch { address: Seq<char> },
    Decode { payload: Seq<u8>, base_path: Seq<char> },
    DetectEnvironment,
    Attach(Attachment),
}

impl View for Command {
    type V = CommandView;

    open spec fn view(&self) -> CommandView {
        match *self {
            Command::Fetch { address } => CommandView::Fetch { address: address@ },
            Command::Decode { payload, base_path } => CommandView::Decode {
                payload: payload@,
                base_path: base_path@,
            },
            Command::DetectEnvironment => CommandView::DetectEnvironment,
            Command::Attach(attachment) => CommandView::Attach(attachment),
        }
    }
}

/// The composer: the configured address and the phase of the session.
pub struct OnlineGltfLoader {
    pub url: String,
    pub phase: Phase,
}

/// A composer as contracts see it.
pub struct LoaderView {
    pub url: Seq<char>,
    pub phase: Phase,
}

impl View for OnlineGltfLoader {
    type V = LoaderView;

    open spec fn view(&self) -> LoaderView {
        LoaderView { url: self.url@, phase: self.phase }
    }
}

/// What can happen to a composer.
pub enum Event {
    /// The host asks for a session.
    Start,
    /// The fetch completed with a transport result, where zero is success,
    /// a response code and a body.
    FetchCompleted { result: i64, response_code: i64, body: Seq<u8> },
    /// The decoder returned.
    Decoded(Result<Option<DecodedAsset>, DecodeError>),
    /// The host looked at its primary display interface.
    Environment(PrimaryInterface),
}

/// The answer to an event: the next command, or why there is none.
pub type Reply = Result<CommandView, SessionError>;

/// The sample asset that is fetched when no address was configured.
pub open spec fn default_address() -> Seq<char> {
    "https://raw.githubusercontent.com/KhronosGroup/glTF-Sample-Models/master/2.0/Duck/glTF-Binary/Duck.glb"@
}

/// The logical path against which the decoder resolves the auxiliary files
/// that a payload names.
pub open spec fn base_path() -> Seq<char> {
    "user://remote_assets/"@
}

/// The address that is fetched: the configured one, or the sample asset's
/// where none was configured.
pub open spec fn resolve_address(url: Seq<char>) -> Seq<char> {
    if url.len() == 0 {
        default_address()
    } else {
        url
    }
}

/// The error that a failed fetch ends the session with.
pub open spec fn fetch_error(status: FetchStatus) -> SessionError {
    match status {
        FetchStatus::HttpError(code) => SessionError::Http { code },
        _ => SessionError::Transport,
    }
}

/// The root after correction. A root that is not spatial has no pose and
/// stays as it is.
pub open spec fn corrected_root(root: RootNode) -> RootNode {
    match root {
        RootNode::Spatial(pose) => RootNode::Spatial(corrected_pose(pose)),
        RootNode::Plain => RootNode::Plain,
    }
}

/// The root placed two units in front of the immersive rig, that is, along
/// the rig's negative backward axis.
pub open spec fn placed_before_rig(root: RootNode) -> RootNode {
    match root {
        RootNode::Spatial(pose) => RootNode::Spatial(
            NodePose { position: vec3(0, 0, -2_000_000), ..pose },
        ),
        RootNode::Plain => RootNode::Plain,
    }
}

/// The controller that a desktop session creates: three units per second
/// forward, one and a half angle units per second of turn.
pub open spec fn desktop_controller() -> Player3D {
    Player3D {
        speed: 3_000_000,
        rotation_speed: 1_500_000,
        camera_distance: 10_000_000,
        camera_height: 5_000_000,
        position: vec3(0, 0, 0),
        yaw: 0,
    }
}

/// Where a corrected root is attached in the given mode.
pub open spec fn attachment_for(mode: EnvironmentMode, root: RootNode) -> Attachment {
    match mode {
        EnvironmentMode::Immersive => Attachment::UnderImmersiveRig {
            root: placed_before_rig(root),
        },
        EnvironmentMode::Desktop => Attachment::UnderDesktopController {
            controller: desktop_controller(),
            root,
        },
    }
}

/// A session is under way in this phase.
pub open spec fn in_session(phase: Phase) -> bool {
    phase is Fetching || phase is Decoding || phase is Detecting
}

/// The root of this event, if it carries one, can take the quarter turn.
pub open spec fn event_in_range(event: Event) -> bool {
    event matches Event::Decoded(Ok(Some(asset))) ==> (asset.root matches RootNode::Spatial(pose)
        ==> pose.rotation_y <= i64::MAX - QUARTER_TURN)
}

/// The composer after an event, and its answer. An event that the phase
/// does not wait for changes nothing.
pub open spec fn step(s: LoaderView, event: Event) -> (LoaderView, Reply) {
    match event {
        Event::Start => {
            if in_session(s.phase) {
                (s, Err(SessionError::SessionInProgress))
            } else {
                (
                    LoaderView { phase: Phase::Fetching, ..s },
                    Ok(CommandView::Fetch { address: resolve_address(s.url) }),
                )
            }
        },
        Event::FetchCompleted { result, response_code, body } => {
            if !(s.phase is Fetching) {
                (s, Err(SessionError::OutOfTurn))
            } else if fetch_status(result, response_code) is Success {
                (
                    LoaderView { phase: Phase::Decoding, ..s },
                    Ok(CommandView::Decode { payload: body, base_path: base_path() }),
                )
            } else {
                let error = fetch_error(fetch_status(result, response_code));
                (
                    LoaderView {
                        phase: Phase::Done { outcome: SessionOutcome::Failed(error) },
                        ..s
                    },
                    Err(error),
                )
            }
        },
        Event::Decoded(decoded) => {
            if !(s.phase is Decoding) {
                (s, Err(SessionError::OutOfTurn))
            } else {
                match decoded {
                    Ok(Some(asset)) => (
                        LoaderView {
                            phase: Phase::Detecting { root: corrected_root(asset.root) },
                            ..s
                        },
                        Ok(CommandView::DetectEnvironment),
                    ),
                    Ok(None) => (
                        LoaderView {
                            phase: Phase::Done {
                                outcome: SessionOutcome::Failed(SessionError::EmptyScene),
                            },
                            ..s
                        },
                        Err(SessionError::EmptyScene),
                    ),
                    Err(e) => (
                        LoaderView {
                            phase: Phase::Done {
                                outcome: SessionOutcome::Failed(
                                    SessionError::Decode { code: e.code },
                                ),
                            },
                            ..s
                        },
                        Err(SessionError::Decode { code: e.code }),
                    ),
                }
            }
        },
        Event::Environment(primary) => {
            match s.phase {
                Phase::Detecting { root } => (
                    LoaderView {
                        phase: Phase::Done {
                            outcome: SessionOutcome::Attached(mode_of(primary)),
                        },
                        ..s
                    },
                    Ok(CommandView::Attach(attachment_for(mode_of(primary), root))),
                ),
                _ => (s, Err(SessionError::OutOfTurn)),
            }
        },
    }
}

/// An answer as contracts see it.
pub open spec fn reply_view(reply: Result<Command, SessionError>) -> Reply {
    match reply {
        Ok(command) => Ok(command@),
        Err(error) => Err(error),
    }
}

/// The error that a failed fetch ends the session with.
fn failure(status: FetchStatus) -> (error: SessionError)
    ensures
        error == fetch_error(status),
{
    match status {
        FetchStatus::HttpError(code) => SessionError::Http { code },
        _ => SessionError::Transport,
    }
}

impl OnlineGltfLoader {
    /// A composer without an address, before its first session.
    pub fn new() -> (loader: OnlineGltfLoader)
        ensures
            loader@ == (LoaderView { url: Seq::<char>::empty(), phase: Phase::Idle }),
    {
        OnlineGltfLoader { url: String::new(), phase: Phase::Idle }
    }

    /// Configures the address for the sessions to come.
    pub fn set_url(&mut self, url: String)
        ensures
            final(self)@ == (LoaderView { url: url@, ..old(self)@ }),
    {
        self.url = url;
    }

    /// Tells whether a session is under way.
    pub fn is_busy(&self) -> (b: bool)
        ensures
            b == in_session(self.phase),
    {
        match self.phase {
            Phase::Fetching => true,
            Phase::Decoding => true,
            Phase::Detecting { .. } => true,
            _ => false,
        }
    }

    /// Starts a session, unless one is under way: then the request is
    /// rejected with `SessionInProgress` and nothing changes. An accepted
    /// session asks for the fetch of the configured address, or of the
    /// sample asset where none is configured.
    pub fn on_session_start(&mut self) -> (reply: Result<Command, SessionError>)
        ensures
            (final(self)@, reply_view(reply)) == step(old(self)@, Event::Start),
            in_session(old(self).phase) ==> reply == Err::<Command, SessionError>(
                SessionError::SessionInProgress,
            ) && final(self)@ == old(self)@,
            !in_session(old(self).phase) ==> final(self).phase is Fetching && reply_view(reply)
                == Ok::<CommandView, SessionError>(
                CommandView::Fetch { address: resolve_address(old(self).url@) },
            ),
    {
        if self.is_busy() {
            return Err(SessionError::SessionInProgress);
        }
        let address = if self.url.as_str().is_empty() {
            "https://raw.githubusercontent.com/KhronosGroup/glTF-Sample-Models/master/2.0/Duck/glTF-Binary/Duck.glb".to_owned()
        } else {
            self.url.clone()
        };
        self.phase = Phase::Fetching;
        Ok(Command::Fetch { address })
    }

    /// Takes the completion of the fetch: the transport's result, where zero
    /// is success, the response code and the body. A failed fetch ends the
    /// session; a successful one sends the body to the decoder.
    pub fn on_request_completed(&mut self, result: i64, response_code: i64, body: Vec<u8>) -> (reply:
        Result<Command, SessionError>)
        ensures
            (final(self)@, reply_view(reply)) == step(
                old(self)@,
                Event::FetchCompleted { result, response_code, body: body@ },
            ),
    {
        match self.phase {
            Phase::Fetching => {},
            _ => {
                return Err(SessionError::OutOfTurn);
            },
        }
        let fetched = FetchResult::new(result, response_code, body);
        match fetched.payload {
            Some(payload) => {
                self.phase = Phase::Decoding;
                Ok(Command::Decode { payload, base_path: "user://remote_assets/".to_owned() })
            },
            None => {
                let error = failure(fetched.status);
                self.phase = Phase::Done { outcome: SessionOutcome::Failed(error) };
                Err(error)
            },
        }
    }

    /// Takes what the decoder returned. An error or a scene without a root
    /// ends the session; a root is corrected and kept until the host has
    /// looked at its display.
    pub fn on_decoded(&mut self, decoded: Result<Option<DecodedAsset>, DecodeError>) -> (reply:
        Result<Command, SessionError>)
        requires
            event_in_range(Event::Decoded(decoded)),
        ensures
            (final(self)@, reply_view(reply)) == step(old(self)@, Event::Decoded(decoded)),
    {
        match self.phase {
            Phase::Decoding => {},
            _ => {
                return Err(SessionError::OutOfTurn);
            },
        }
        match decoded {
            Ok(Some(asset)) => {
                let root = match asset.root {
                    RootNode::Spatial(pose) => {
                        let mut corrected = pose;
                        correct_model_orientation(&mut corrected);
                        RootNode::Spatial(corrected)
                    },
                    RootNode::Plain => RootNode::Plain,
                };
                self.phase = Phase::Detecting { root };
                Ok(Command::DetectEnvironment)
            },
            Ok(None) => {
                self.phase = Phase::Done {
                    outcome: SessionOutcome::Failed(SessionError::EmptyScene),
                };
                Err(SessionError::EmptyScene)
            },
            Err(e) => {
                let error = SessionError::Decode { code: e.code };
                self.phase = Phase::Done { outcome: SessionOutcome::Failed(error) };
                Err(error)
            },
        }
    }

    /// Takes the one look at the host's primary display interface and
    /// attaches the asset accordingly: under the immersive rig, two units
    /// in front of it, or under a new desktop controller.
    pub fn on_environment(&mut self, primary: PrimaryInterface) -> (reply: Result<
        Command,
        SessionError,
    >)
        ensures
            (final(self)@, reply_view(reply)) == step(old(self)@, Event::Environment(primary)),
    {
        let root = match self.phase {
            Phase::Detecting { root } => root,
            _ => {
                return Err(SessionError::OutOfTurn);
            },
        };
        let mode = detect(primary);
        let attachment = match mode {
            EnvironmentMode::Immersive => {
                let placed = match root {
                    RootNode::Spatial(pose) => RootNode::Spatial(
                        NodePose {
                            rotation_y: pose.rotation_y,
                            scale: pose.scale,
                            position: Vec3 { x: 0, y: 0, z: -2_000_000 },
                        },
                    ),
                    RootNode::Plain => RootNode::Plain,
                };
                Attachment::UnderImmersiveRig { root: placed }
            },
            EnvironmentMode::Desktop => {
                let mut controller = Player3D::new();
                controller.set_speed(3_000_000);
                controller.set_rotation_speed(1_500_000);
                Attachment::UnderDesktopController { controller, root }
            },
        };
        self.phase = Phase::Done { outcome: SessionOutcome::Attached(mode) };
        Ok(Command::Attach(attachment))
    }
}

} // verus!
