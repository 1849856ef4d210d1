//! The virtual camera: a driver script fed from an image, a video file or a
//! physical camera.

use crate::process_handle::{
    FailureLabels, FailureLabelsView, HandleView, HelperProcessHandle, LaunchSpec, LaunchSpecView,
};
use crate::protocol::{Action, ActionView, Event, EventView};
use crate::text::{concat2, decimal, parse_i32, parsed_i32, to_decimal};
use vstd::prelude::*;

verus! {

/// The driver script: it opens the source named on its command line and
/// streams it to a virtual camera until it is terminated.
pub const DRIVER_SCRIPT: &'static str = r#"
import sys
import argparse
import base64
import time
import numpy as np
from io import BytesIO
import cv2
import pyvirtualcam

def main():
    parser = argparse.ArgumentParser(description='Webcam Emulator')
    parser.add_argument('--image', type=str, help='Base64 encoded image data')
    parser.add_argument('--video', type=str, help='Path to video file')
    parser.add_argument('--camera', type=int, help='Physical camera index')
    args = parser.parse_args()

    # Default frame size and rate
    width, height, fps = 640, 480, 30
    
    # Prepare the source
    if args.image:
        try:
            # Decode base64 image
            img_data = base64.b64decode(args.image)
            nparr = np.frombuffer(img_data, np.uint8)
            frame = cv2.imdecode(nparr, cv2.IMREAD_COLOR)
            if frame is None:
                raise ValueError("Invalid image data")
            height, width = frame.shape[:2]
            is_video = False
        except Exception as e:
            print(f"Error loading image: {e}")
            return 1
            
    elif args.video:
        try:
            cap = cv2.VideoCapture(args.video)
            if not cap.isOpened():
                raise ValueError(f"Could not open video file: {args.video}")
            width = int(cap.get(cv2.CAP_PROP_FRAME_WIDTH))
            height = int(cap.get(cv2.CAP_PROP_FRAME_HEIGHT))
            fps = cap.get(cv2.CAP_PROP_FPS)
            if fps <= 0:
                fps = 30
            is_video = True
        except Exception as e:
            print(f"Error opening video: {e}")
            return 1
            
    elif args.camera is not None:
        try:
            cap = cv2.VideoCapture(args.camera)
            if not cap.isOpened():
                raise ValueError(f"Could not open camera {args.camera}")
            width = int(cap.get(cv2.CAP_PROP_FRAME_WIDTH))
            height = int(cap.get(cv2.CAP_PROP_FRAME_HEIGHT))
            fps = cap.get(cv2.CAP_PROP_FPS)
            if fps <= 0:
                fps = 30
            is_video = True
        except Exception as e:
            print(f"Error opening camera: {e}")
            return 1
    else:
        print("No source specified")
        return 1

    # Create virtual camera
    try:
        with pyvirtualcam.Camera(width=width, height=height, fps=fps) as cam:
            print(f"Virtual camera created: {cam.device}")
            
            # Main loop
            while True:
                if is_video:
                    ret, current_frame = cap.read()
                    if not ret:
                        if args.video:  # If it's a video file, loop it
                            cap.set(cv2.CAP_PROP_POS_FRAMES, 0)
                            continue
                        else:  # If it's a camera and we lost the frame, exit
                            break
                else:
                    current_frame = frame.copy()
                
                # Convert to RGB (pyvirtualcam expects RGB)
                frame_rgb = cv2.cvtColor(current_frame, cv2.COLOR_BGR2RGB)
                
                # Send to virtual camera
                cam.send(frame_rgb)
                cam.sleep_until_next_frame()
                
    except Exception as e:
        print(f"Error in virtual camera: {e}")
        return 1
    finally:
        if is_video and 'cap' in locals():
            cap.release()
    
    return 0

if __name__ == "__main__":
    sys.exit(main())
"#;

/// Where the frames come from.
#[derive(Debug, Clone, PartialEq, Eq)]
pub enum WebcamSource {
    /// A still image, base64-encoded.
    Image(String),
    /// The path of a video file.
    Video(String),
    /// The index of a physical camera.
    Camera(i32),
}

/// `WebcamSource` as the contracts see it.
pub enum WebcamSourceView {
    Image(Seq<char>),
    Video(Seq<char>),
    Camera(i32),
}

impl View for WebcamSource {
    type V = WebcamSourceView;

    open spec fn view(&self) -> WebcamSourceView {
        match self {
            WebcamSource::Image(data) => WebcamSourceView::Image(data@),
            WebcamSource::Video(path) => WebcamSourceView::Video(path@),
            WebcamSource::Camera(index) => WebcamSourceView::Camera(*index),
        }
    }
}

/// A text as Rust's `Debug` formatting writes it: in double quotes, with
/// quotes, backslashes and unprintable characters escaped.
pub uninterp spec fn debug_text(s: Seq<char>) -> Seq<char>;

/// Formats `s` with `{:?}`, std's `Debug` for `str`, which depends on the
/// characters of `s` alone.
#[verifier::external_body]
fn debug_quote(s: &str) -> (quoted: String)
    ensures
        quoted@ == debug_text(s@),
{
    format!("{:?}", s)
}

/// The refusal of an empty image.
pub open spec fn empty_image_text() -> Seq<char> {
    "Dados de imagem vazios"@
}

/// The refusal of a camera index that is negative or not a number.
pub open spec fn invalid_camera_text() -> Seq<char> {
    "Índice de câmera inválido"@
}

/// The refusal of a source type that is none of the three.
pub open spec fn unknown_source_text() -> Seq<char> {
    "Tipo de fonte desconhecido"@
}

/// The refusal given when the emulator's lock cannot be taken.
pub open spec fn webcam_lock_text() -> Seq<char> {
    "Falha ao obter lock do WebcamEmulator"@
}

/// The refusal of a video file that is not there; `quoted` is its path
/// between quotes.
pub open spec fn missing_file_text(quoted: Seq<char>) -> Seq<char> {
    "Arquivo não encontrado: "@ + quoted
}

/// The headings of the emulator's failures.
pub open spec fn webcam_labels() -> FailureLabelsView {
    FailureLabelsView {
        terminate: "Falha ao encerrar o processo Python: "@,
        remove: "Falha ao remover script temporário: "@,
        temp_dir: "Erro ao criar diretório temporário: "@,
        write: "Erro ao escrever script Python: "@,
        spawn: "Erro ao iniciar o processo Python: "@,
    }
}

/// Why a source is refused without looking at the disk: an image without
/// data, a camera with a negative index. `None` for every other source.
pub open spec fn validation_refusal(source: WebcamSourceView) -> Option<Seq<char>> {
    match source {
        WebcamSourceView::Image(data) => if data.len() == 0 {
            Some(empty_image_text())
        } else {
            None
        },
        WebcamSourceView::Video(_) => None,
        WebcamSourceView::Camera(index) => if index < 0 {
            Some(invalid_camera_text())
        } else {
            None
        },
    }
}

/// The arguments that tell the driver script which source to open.
pub open spec fn source_args(source: WebcamSourceView) -> Seq<Seq<char>> {
    match source {
        WebcamSourceView::Image(data) => seq!["--image"@, data],
        WebcamSourceView::Video(path) => seq!["--video"@, path],
        WebcamSourceView::Camera(index) => seq!["--camera"@, decimal(index as nat)],
    }
}

/// The launch of the emulator for `source`: the interpreter runs the driver
/// script with the arguments of that very source.
pub open spec fn webcam_launch(source: WebcamSourceView) -> LaunchSpecView {
    LaunchSpecView {
        program: "python"@,
        dir_prefix: "webcam_emulator"@,
        script_name: "webcam_emulator.py"@,
        script_content: DRIVER_SCRIPT@,
        extra_args: source_args(source),
    }
}

/// The source that a request names, or why it names none. The type is one
/// of `image`, `video` and `camera`; a camera's data is its index in decimal.
pub open spec fn parsed_source(source_type: Seq<char>, source_data: Seq<char>) -> Result<
    WebcamSourceView,
    Seq<char>,
> {
    if source_type == "image"@ {
        Ok(WebcamSourceView::Image(source_data))
    } else if source_type == "video"@ {
        Ok(WebcamSourceView::Video(source_data))
    } else if source_type == "camera"@ {
        match parsed_i32(source_data) {
            Some(index) => Ok(WebcamSourceView::Camera(index)),
            None => Err(invalid_camera_text()),
        }
    } else {
        Err(unknown_source_text())
    }
}

/// The text of `missing_file_text` for a path that is already quoted.
pub fn missing_file_message(quoted: &str) -> (text: String)
    ensures
        text@ == missing_file_text(quoted@),
{
    concat2("Arquivo não encontrado: ", quoted)
}

/// Reads the source that a request names.
pub fn parse_source(source_type: &str, source_data: &str) -> (r: Result<WebcamSource, String>)
    ensures
        match parsed_source(source_type@, source_data@) {
            Ok(source) => r matches Ok(s) && s@ == source,
            Err(text) => r matches Err(e) && e@ == text,
        },
{
    let kind = source_type.to_string();
    if kind == "image".to_string() {
        Ok(WebcamSource::Image(source_data.to_string()))
    } else if kind == "video".to_string() {
        Ok(WebcamSource::Video(source_data.to_string()))
    } else if kind == "camera".to_string() {
        match parse_i32(source_data) {
            Some(index) => Ok(WebcamSource::Camera(index)),
            None => Err("Índice de câmera inválido".to_string()),
        }
    } else {
        Err("Tipo de fonte desconhecido".to_string())
    }
}

fn labels() -> (l: FailureLabels)
    ensures
        l@ == webcam_labels(),
{
    FailureLabels {
        terminate: "Falha ao encerrar o processo Python: ".to_string(),
        remove: "Falha ao remover script temporário: ".to_string(),
        temp_dir: "Erro ao criar diretório temporário: ".to_string(),
        write: "Erro ao escrever script Python: ".to_string(),
        spawn: "Erro ao iniciar o processo Python: ".to_string(),
    }
}

fn launch_of(source: &WebcamSource) -> (launch: LaunchSpec)
    requires
        validation_refusal(source@) is None,
    ensures
        launch@ == webcam_launch(source@),
{
    let mut extra_args: Vec<String> = Vec::new();
    match source {
        WebcamSource::Image(data) => {
            extra_args.push("--image".to_string());
            extra_args.push(data.clone());
        },
        WebcamSource::Video(path) => {
            extra_args.push("--video".to_string());
            extra_args.push(path.clone());
        },
        WebcamSource::Camera(index) => {
            extra_args.push("--camera".to_string());
            extra_args.push(to_decimal(*index as u64));
        },
    }
    assert(extra_args.deep_view() =~= source_args(source@));
    LaunchSpec {
        program: "python".to_string(),
        dir_prefix: "webcam_emulator".to_string(),
        script_name: "webcam_emulator.py".to_string(),
        script_content: DRIVER_SCRIPT.to_string(),
        extra_args,
    }
}

/// What a start of the emulator is waiting for.
enum Awaiting {
    Nothing,
    Probe(String),
    Launch(WebcamSource),
}

/// What a start of the emulator is waiting for, as the contracts see it.
pub enum AwaitingView {
    /// No start is under way.
    Nothing,
    /// The video file at this path is being looked for.
    Probe(Seq<char>),
    /// The handle is launching the driver for this source.
    Launch(WebcamSourceView),
}

impl View for Awaiting {
    type V = AwaitingView;

    closed spec fn view(&self) -> AwaitingView {
        match self {
            Awaiting::Nothing => AwaitingView::Nothing,
            Awaiting::Probe(path) => AwaitingView::Probe(path@),
            Awaiting::Launch(source) => AwaitingView::Launch(source@),
        }
    }
}

/// Supervisor of the virtual camera.
pub struct WebcamEmulator<P> {
    handle: HelperProcessHandle<P>,
    current_source: Option<WebcamSource>,
    awaiting: Awaiting,
}

/// The supervisor as the contracts see it.
pub struct WebcamView<P> {
    /// The driver's process, its script and the script's directory.
    pub handle: HandleView<P>,
    /// The source of the driver that was started last and not stopped since.
    pub current_source: Option<WebcamSourceView>,
    /// What a start under way is waiting for.
    pub awaiting: AwaitingView,
}

impl<P> View for WebcamEmulator<P> {
    type V = WebcamView<P>;

    closed spec fn view(&self) -> WebcamView<P> {
        WebcamView {
            handle: self.handle@,
            current_source: match self.current_source {
                Some(source) => Some(source@),
                None => None,
            },
            awaiting: self.awaiting@,
        }
    }
}

/// Records how a launch ended: with success the launched source becomes the
/// current one; with a failure the start is over. Any other action is passed
/// on as it is.
pub open spec fn settle_step<P>(s: WebcamView<P>, action: ActionView<P>) -> (
    WebcamView<P>,
    ActionView<P>,
) {
    match (s.awaiting, action) {
        (AwaitingView::Launch(source), ActionView::Done(Ok(_))) => (
            WebcamView { current_source: Some(source), awaiting: AwaitingView::Nothing, ..s },
            action,
        ),
        (AwaitingView::Launch(_), ActionView::Done(Err(_))) => (
            WebcamView { awaiting: AwaitingView::Nothing, ..s },
            action,
        ),
        _ => (s, action),
    }
}

/// Hands a validated source to the handle. The recorded source is cleared
/// with the stop that the handle begins with.
pub open spec fn launch_step<P>(s: WebcamView<P>, source: WebcamSourceView) -> (
    WebcamView<P>,
    ActionView<P>,
) {
    let (handle, action) = crate::process_handle::start_step(s.handle, webcam_launch(source));
    settle_step(
        WebcamView { handle, current_source: None, awaiting: AwaitingView::Launch(source) },
        action,
    )
}

/// The first move of a start. A source that fails validation is refused at
/// once and nothing changes; a video file is looked for first; any other
/// source goes to the handle.
pub open spec fn start_step<P>(s: WebcamView<P>, source: WebcamSourceView) -> (
    WebcamView<P>,
    ActionView<P>,
) {
    match validation_refusal(source) {
        Some(text) => (s, ActionView::Done(Err(text))),
        None => match source {
            WebcamSourceView::Video(path) => (
                WebcamView { awaiting: AwaitingView::Probe(path), ..s },
                ActionView::ProbeFile(path),
            ),
            _ => launch_step(s, source),
        },
    }
}

/// The first move of a stop: the handle's. The recorded source is cleared
/// whatever becomes of the stop.
pub open spec fn stop_step<P>(s: WebcamView<P>) -> (WebcamView<P>, ActionView<P>) {
    let (handle, action) = crate::process_handle::stop_step(s.handle);
    (WebcamView { handle, current_source: None, awaiting: AwaitingView::Nothing }, action)
}

/// The move that follows an event.
pub open spec fn resume_step<P>(s: WebcamView<P>, event: EventView<P>) -> (
    WebcamView<P>,
    ActionView<P>,
) {
    match s.awaiting {
        AwaitingView::Probe(path) => match event {
            EventView::Probed(true) => launch_step(s, WebcamSourceView::Video(path)),
            EventView::Probed(false) => (
                WebcamView { awaiting: AwaitingView::Nothing, ..s },
                ActionView::Done(Err(missing_file_text(debug_text(path)))),
            ),
            _ => (s, ActionView::Rejected(event)),
        },
        _ => {
            let (handle, action) = crate::process_handle::resume_step(s.handle, event);
            settle_step(WebcamView { handle, ..s }, action)
        },
    }
}

impl<P> WebcamView<P> {
    /// What holds of every supervisor of the camera: its handle is
    /// well-formed and reports failures under the camera's headings.
    pub open spec fn handle_wf(self) -> bool {
        self.handle.wf() && self.handle.labels == webcam_labels()
    }

    /// What holds of every supervisor that began as `WebcamEmulator::new`
    /// gives it and has only moved by `start`, `stop` and `resume`: its handle
    /// is well-formed; a source is recorded only while a process is owned and
    /// nothing is under way in the handle; and a source is being launched
    /// only while the handle is at a start, and has passed validation.
    pub open spec fn wf(self) -> bool {
        &&& self.handle_wf()
        &&& self.current_source is Some ==> self.handle.process is Some
            && self.handle.pending is Nothing
        &&& self.awaiting matches AwaitingView::Launch(source) ==> validation_refusal(source)
            is None && self.handle.starting()
    }
}

/// Every move leads from a well-formed supervisor to a well-formed one, so
/// that a recorded source always tells of an owned process.
pub proof fn lemma_webcam_steps_preserve_wf<P>(
    s: WebcamView<P>,
    source: WebcamSourceView,
    event: EventView<P>,
)
    requires
        s.wf(),
    ensures
        start_step(s, source).0.wf(),
        stop_step(s).0.wf(),
        resume_step(s, event).0.wf(),
{
}

impl<P> WebcamEmulator<P> {
    #[verifier::type_invariant]
    spec fn well_formed(&self) -> bool {
        self@.wf()
    }

    /// A supervisor that owns nothing and has no source.
    pub fn new() -> (emulator: Self)
        ensures
            emulator@.handle.owns_nothing(),
            emulator@.handle.pending is Nothing,
            emulator@.current_source is None,
            emulator@.awaiting is Nothing,
            emulator@.wf(),
    {
        Self {
            handle: HelperProcessHandle::new(labels()),
            current_source: None,
            awaiting: Awaiting::Nothing,
        }
    }

    /// Whether a process is owned; not whether it is still alive.
    pub fn is_running(&self) -> (running: bool)
        ensures
            running == self@.handle.process is Some,
            self@.wf(),
    {
        proof {
            use_type_invariant(self);
        }
        self.handle.is_running()
    }

    /// The source of the driver that was started last and not stopped since.
    pub fn current_source(&self) -> (source: &Option<WebcamSource>)
        ensures
            match self@.current_source {
                Some(v) => source matches Some(s) && s@ == v,
                None => source is None,
            },
    {
        &self.current_source
    }

    /// Lets the handle make its move while the recorded source is set
    /// aside, and records what the move makes of the launch under way.
    fn hand_on(&mut self, event: Event<P>) -> (action: Action<P>)
        ensures
            (final(self)@, action@) == ({
                let (handle, action) = crate::process_handle::resume_step(
                    old(self)@.handle,
                    event@,
                );
                settle_step(WebcamView { handle, ..old(self)@ }, action)
            }),
            action@ is Spawn ==> old(self)@.handle.owns_nothing(),
    {
        proof {
            use_type_invariant(&*self);
        }
        let mut awaiting = Awaiting::Nothing;
        core::mem::swap(&mut self.awaiting, &mut awaiting);
        let mut source: Option<WebcamSource> = None;
        core::mem::swap(&mut self.current_source, &mut source);
        let mut handle = HelperProcessHandle::new(labels());
        core::mem::swap(&mut self.handle, &mut handle);
        let action = handle.resume(event);
        core::mem::swap(&mut self.handle, &mut handle);
        let done = match &action {
            Action::Done(Ok(_)) => Some(true),
            Action::Done(Err(_)) => Some(false),
            _ => None,
        };
        match awaiting {
            Awaiting::Launch(launched) => match done {
                Some(true) => {
                    self.current_source = Some(launched);
                },
                Some(false) => {
                    self.current_source = source;
                },
                None => {
                    self.current_source = source;
                    self.awaiting = Awaiting::Launch(launched);
                },
            },
            other => {
                self.current_source = source;
                self.awaiting = other;
            },
        }
        action
    }

    fn launch(&mut self, source: WebcamSource) -> (action: Action<P>)
        requires
            validation_refusal(source@) is None,
        ensures
            (final(self)@, action@) == launch_step(old(self)@, source@),
            !(action@ is Spawn),
    {
        proof {
            use_type_invariant(&*self);
        }
        let launch = launch_of(&source);
        self.awaiting = Awaiting::Nothing;
        self.current_source = None;
        let mut handle = HelperProcessHandle::new(labels());
        core::mem::swap(&mut self.handle, &mut handle);
        let action = handle.start(launch);
        core::mem::swap(&mut self.handle, &mut handle);
        self.awaiting = Awaiting::Launch(source);
        action
    }

    /// Begins a start from `source`.
    pub fn start(&mut self, source: WebcamSource) -> (action: Action<P>)
        ensures
            (final(self)@, action@) == start_step(old(self)@, source@),
            old(self)@.wf(),
            final(self)@.wf(),
            !(action@ is Spawn),
    {
        proof {
            use_type_invariant(&*self);
            lemma_webcam_steps_preserve_wf(self@, source@, EventView::Probed(true));
        }
        match &source {
            WebcamSource::Image(data) => {
                if data.as_str().unicode_len() == 0 {
                    return Action::Done(Err("Dados de imagem vazios".to_string()));
                }
            },
            WebcamSource::Video(path) => {
                self.awaiting = Awaiting::Probe(path.clone());
                return Action::ProbeFile(path.clone());
            },
            WebcamSource::Camera(index) => {
                if *index < 0 {
                    return Action::Done(Err("Índice de câmera inválido".to_string()));
                }
            },
        }
        self.launch(source)
    }

    /// Begins a stop.
    pub fn stop(&mut self) -> (action: Action<P>)
        ensures
            (final(self)@, action@) == stop_step(old(self)@),
            old(self)@.wf(),
            final(self)@.wf(),
            final(self)@.current_source is None,
            !(action@ is Spawn),
    {
        proof {
            use_type_invariant(&*self);
            lemma_webcam_steps_preserve_wf(
                self@,
                WebcamSourceView::Camera(0),
                EventView::Probed(true),
            );
        }
        self.current_source = None;
        self.awaiting = Awaiting::Nothing;
        // The handle makes its move outside the supervisor; an empty one
        // stands in for it meanwhile.
        let mut handle = HelperProcessHandle::new(labels());
        core::mem::swap(&mut self.handle, &mut handle);
        let action = handle.stop();
        core::mem::swap(&mut self.handle, &mut handle);
        action
    }

    /// Takes the host's answer to the last action and gives the next one.
    pub fn resume(&mut self, event: Event<P>) -> (action: Action<P>)
        ensures
            (final(self)@, action@) == resume_step(old(self)@, event@),
            old(self)@.wf(),
            final(self)@.wf(),
            action@ is Spawn ==> old(self)@.handle.owns_nothing(),
    {
        proof {
            use_type_invariant(&*self);
            lemma_webcam_steps_preserve_wf(self@, WebcamSourceView::Camera(0), event@);
        }
        let mut awaiting = Awaiting::Nothing;
        core::mem::swap(&mut self.awaiting, &mut awaiting);
        match awaiting {
            Awaiting::Probe(path) => match event {
                Event::Probed(true) => self.launch(WebcamSource::Video(path)),
                Event::Probed(false) => {
                    let quoted = debug_quote(path.as_str());
                    Action::Done(Err(missing_file_message(quoted.as_str())))
                },
                event => {
                    self.awaiting = Awaiting::Probe(path);
                    Action::Rejected(event)
                },
            },
            other => {
                self.awaiting = other;
                self.hand_on(event)
            },
        }
    }
}

/// Starts the emulator from a request. The request is read first, so a
/// source that cannot be read is refused whether or not the emulator can be
/// reached; `emulator` is `None` when its lock could not be taken.
pub fn start_webcam_emulator<P>(
    source_type: &str,
    source_data: &str,
    emulator: Option<&mut WebcamEmulator<P>>,
) -> (action: Action<P>)
    ensures
        match parsed_source(source_type@, source_data@) {
            Err(text) => action@ == ActionView::<P>::Done(Err(text)) && (emulator matches Some(e)
                ==> *final(e) == *e),
            Ok(source) => match emulator {
                None => action@ == ActionView::<P>::Done(Err(webcam_lock_text())),
                Some(e) => (final(e)@, action@) == start_step(e@, source),
            },
        },
{
    let source = match parse_source(source_type, source_data) {
        Ok(source) => source,
        Err(text) => {
            return Action::Done(Err(text));
        },
    };
    match emulator {
        Some(e) => e.start(source),
        None => Action::Done(Err("Falha ao obter lock do WebcamEmulator".to_string())),
    }
}

/// Stops the emulator on request; `emulator` is `None` when its lock could
/// not be taken.
pub fn stop_webcam_emulator<P>(emulator: Option<&mut WebcamEmulator<P>>) -> (action: Action<P>)
    ensures
        match emulator {
            None => action@ == ActionView::<P>::Done(Err(webcam_lock_text())),
            Some(e) => (final(e)@, action@) == stop_step(e@),
        },
{
    match emulator {
        Some(e) => e.stop(),
        None => Action::Done(Err("Falha ao obter lock do WebcamEmulator".to_string())),
    }
}

/// Tells on request whether the emulator owns a process; `emulator` is
/// `None` when its lock could not be taken.
pub fn check_webcam_emulator_status<P>(emulator: Option<&WebcamEmulator<P>>) -> (status: Result<
    bool,
    String,
>)
    ensures
        match emulator {
            None => status matches Err(e) && e@ == webcam_lock_text(),
            Some(e) => status == Ok::<bool, String>(e@.handle.process is Some),
        },
{
    match emulator {
        Some(e) => Ok(e.is_running()),
        None => Err("Falha ao obter lock do WebcamEmulator".to_string()),
    }
}

/// A source that fails validation is refused by the first move of a start:
/// the supervisor stays as it was, and the host is asked for nothing, neither
/// a directory nor a process. A camera with a negative index is such a
/// source.
pub proof fn lemma_invalid_source_touches_nothing<P>(s: WebcamView<P>, source: WebcamSourceView)
    requires
        validation_refusal(source) is Some,
    ensures
        start_step(s, source) == (
            s,
            ActionView::<P>::Done(Err(validation_refusal(source)->Some_0)),
        ),
        source matches WebcamSourceView::Camera(index) ==> index < 0 && validation_refusal(source)
            == Some(invalid_camera_text()),
{
}

/// Every camera with a negative index fails validation.
pub proof fn lemma_negative_camera_is_invalid(index: i32)
    requires
        index < 0,
    ensures
        validation_refusal(WebcamSourceView::Camera(index)) == Some(invalid_camera_text()),
{
}

} // verus!
