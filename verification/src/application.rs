//! The state of the application between two frames: what the user has
//! chosen, what the running batch last reported, and the log.

use vstd::prelude::*;
use crate::presets::{catalog, OutputFormat, ResizePreset};
use crate::status::{is_terminal, log_line, ProcessingStatus, StatusView};
use crate::text::{chars_of, decimal, parse_u32, parsed_u32, push_decimal, push_text, string_of};

verus! {

/// How many lines the log keeps.
pub const LOG_CAPACITY: usize = 100;

/// The width of a custom size whose text spells no number.
pub const DEFAULT_CUSTOM_WIDTH: u32 = 800;

/// The height of a custom size whose text spells no number.
pub const DEFAULT_CUSTOM_HEIGHT: u32 = 600;

/// What the application holds.
pub struct ImageResizerApp {
    pub selected_files: Vec<String>,
    pub output_directory: Option<String>,
    pub selected_preset: ResizePreset,
    pub custom_width: String,
    pub custom_height: String,
    pub maintain_aspect_ratio: bool,
    pub use_custom_size: bool,
    pub processing_status: ProcessingStatus,
    /// Whether a batch was started whose last message has not arrived yet.
    pub awaiting_results: bool,
    pub log_messages: Vec<String>,
}

/// The application's state as a plain value.
pub struct AppView {
    pub selected_files: Seq<Seq<char>>,
    pub output_directory: Option<Seq<char>>,
    pub selected_preset: ResizePreset,
    pub custom_width: Seq<char>,
    pub custom_height: Seq<char>,
    pub maintain_aspect_ratio: bool,
    pub use_custom_size: bool,
    pub processing_status: StatusView,
    pub awaiting_results: bool,
    pub log_messages: Seq<Seq<char>>,
}

/// A batch that the user asked for.
pub struct BatchRequest {
    pub files: Vec<String>,
    pub output_dir: String,
    pub preset: ResizePreset,
}

/// The texts of a list of strings.
pub open spec fn texts(strings: Seq<String>) -> Seq<Seq<char>> {
    Seq::new(strings.len(), |i: int| strings[i]@)
}

/// The statuses of a list as plain values.
pub open spec fn statuses(list: Seq<ProcessingStatus>) -> Seq<StatusView> {
    Seq::new(list.len(), |i: int| list[i]@)
}

/// The log after `line` was added: the line stands last, and the oldest line
/// has left if the log would else hold more than its capacity.
pub open spec fn logged(log: Seq<Seq<char>>, line: Seq<char>) -> Seq<Seq<char>> {
    if log.len() + 1 > LOG_CAPACITY {
        log.push(line).skip(1)
    } else {
        log.push(line)
    }
}

/// The log line of the last status in `incoming` that has one.
pub open spec fn latest_line(incoming: Seq<StatusView>) -> Option<Seq<char>>
    decreases incoming.len(),
{
    if incoming.len() == 0 {
        None
    } else {
        match log_line(incoming.last()) {
            Some(line) => Some(line),
            None => latest_line(incoming.drop_last()),
        }
    }
}

/// Whether one of the statuses from `from` on is the last of its run.
pub open spec fn any_terminal(incoming: Seq<StatusView>, from: int) -> bool {
    exists|i: int| from <= i < incoming.len() && is_terminal(#[trigger] incoming[i])
}

/// The number that `text` spells, or `fallback` where it spells none.
pub open spec fn parsed_or(text: Seq<char>, fallback: u32) -> u32 {
    match parsed_u32(text) {
        Some(n) => n,
        None => fallback,
    }
}

impl AppView {
    /// The state at start.
    pub open spec fn initial() -> AppView {
        AppView {
            selected_files: Seq::empty(),
            output_directory: None,
            selected_preset: catalog()[0],
            custom_width: "800"@,
            custom_height: "600"@,
            maintain_aspect_ratio: true,
            use_custom_size: false,
            processing_status: StatusView::Idle,
            awaiting_results: false,
            log_messages: Seq::empty(),
        }
    }

    /// The preset that a batch started now would use: the selected one, or
    /// the custom size with each side read from its text.
    pub open spec fn requested_preset(self) -> ResizePreset {
        if self.use_custom_size {
            ResizePreset {
                name: "Custom",
                width: parsed_or(self.custom_width, DEFAULT_CUSTOM_WIDTH),
                height: parsed_or(self.custom_height, DEFAULT_CUSTOM_HEIGHT),
                maintain_aspect_ratio: self.maintain_aspect_ratio,
                output_format: OutputFormat::KeepOriginal,
            }
        } else {
            self.selected_preset
        }
    }

    /// Why no batch can be started now, as the line that the log gets; none
    /// where one can.
    pub open spec fn refusal(self) -> Option<Seq<char>> {
        if self.selected_files.len() == 0 {
            Some("No files selected"@)
        } else if self.output_directory is None {
            Some("No output directory selected"@)
        } else if !self.requested_preset().is_valid() {
            Some("Target size must not be zero"@)
        } else {
            None
        }
    }

    /// Whether the user may start a batch: files and an output directory are
    /// chosen, and no batch is under way.
    pub open spec fn may_process(self) -> bool {
        &&& self.selected_files.len() > 0
        &&& self.output_directory is Some
        &&& (self.processing_status is Idle || self.processing_status is Completed)
    }

    /// The state after the statuses `incoming` have arrived, oldest first.
    /// Without a batch under way nothing is taken in. Else the last status
    /// becomes the current one, the last that has a log line adds it to the
    /// log, and a status that ends its run ends the waiting.
    pub open spec fn after_update(self, incoming: Seq<StatusView>) -> AppView {
        if !self.awaiting_results {
            self
        } else {
            AppView {
                log_messages: match latest_line(incoming) {
                    Some(line) => logged(self.log_messages, line),
                    None => self.log_messages,
                },
                awaiting_results: !any_terminal(incoming, 0),
                processing_status: if incoming.len() > 0 {
                    incoming.last()
                } else {
                    self.processing_status
                },
                ..self
            }
        }
    }
}

impl View for ImageResizerApp {
    type V = AppView;

    open spec fn view(&self) -> AppView {
        AppView {
            selected_files: texts(self.selected_files@),
            output_directory: match self.output_directory {
                Some(d) => Some(d@),
                None => None,
            },
            selected_preset: self.selected_preset,
            custom_width: self.custom_width@,
            custom_height: self.custom_height@,
            maintain_aspect_ratio: self.maintain_aspect_ratio,
            use_custom_size: self.use_custom_size,
            processing_status: self.processing_status@,
            awaiting_results: self.awaiting_results,
            log_messages: texts(self.log_messages@),
        }
    }
}

impl ImageResizerApp {
    /// The log holds no more lines than its capacity.
    pub open spec fn wf(&self) -> bool {
        self.log_messages.len() <= LOG_CAPACITY
    }

    /// The state at start: nothing chosen, the first built-in preset
    /// selected, a custom size of 800 by 600 that keeps the aspect ratio, no
    /// batch under way, an empty log.
    pub fn new() -> (app: ImageResizerApp)
        ensures
            app.wf(),
            app@ == AppView::initial(),
    {
        let app = ImageResizerApp {
            selected_files: Vec::new(),
            output_directory: None,
            selected_preset: ResizePreset::default(),
            custom_width: string_of(&chars_of("800")),
            custom_height: string_of(&chars_of("600")),
            maintain_aspect_ratio: true,
            use_custom_size: false,
            processing_status: ProcessingStatus::Idle,
            awaiting_results: false,
            log_messages: Vec::new(),
        };
        assert(app@.log_messages =~= Seq::empty());
        app
    }

    /// Adds a line to the log. The log keeps its last lines: with more than
    /// its capacity, the oldest line leaves.
    pub fn add_log_message(&mut self, message: String)
        ensures
            final(self)@ == (AppView {
                log_messages: logged(old(self)@.log_messages, message@),
                ..old(self)@
            }),
            old(self).wf() ==> final(self).wf(),
    {
        self.log_messages.push(message);
        if self.log_messages.len() > LOG_CAPACITY {
            self.log_messages.remove(0);
        }
        assert(final(self)@.log_messages =~= logged(old(self)@.log_messages, message@));
    }

    /// Takes in what the file dialog gave: the files picked replace the
    /// selection, and the log says how many they are. A dialog that was
    /// dismissed changes nothing.
    pub fn select_files(&mut self, picked: Option<Vec<String>>)
        ensures
            match picked {
                Some(files) => final(self)@ == (AppView {
                    selected_files: texts(files@),
                    log_messages: logged(
                        old(self)@.log_messages,
                        "Selected "@ + decimal(files.len() as nat) + " files"@,
                    ),
                    ..old(self)@
                }),
                None => final(self)@ == old(self)@,
            },
            old(self).wf() ==> final(self).wf(),
    {
        if let Some(files) = picked {
            let mut line = chars_of("Selected ");
            push_decimal(&mut line, files.len() as u128);
            push_text(&mut line, &chars_of(" files"));
            self.selected_files = files;
            self.add_log_message(string_of(&line));
        }
    }

    /// Takes in what the directory dialog gave: the directory picked becomes
    /// the output directory, and the log says so. A dialog that was dismissed
    /// changes nothing.
    pub fn select_output_directory(&mut self, picked: Option<String>)
        ensures
            match picked {
                Some(directory) => final(self)@ == (AppView {
                    output_directory: Some(directory@),
                    log_messages: logged(old(self)@.log_messages, "Output directory selected"@),
                    ..old(self)@
                }),
                None => final(self)@ == old(self)@,
            },
            old(self).wf() ==> final(self).wf(),
    {
        if let Some(directory) = picked {
            self.output_directory = Some(directory);
            self.add_log_message(string_of(&chars_of("Output directory selected")));
        }
    }

    /// The preset that a batch started now would use.
    pub fn requested_preset(&self) -> (preset: ResizePreset)
        ensures
            preset == self@.requested_preset(),
    {
        if self.use_custom_size {
            let width = match parse_u32(self.custom_width.as_str()) {
                Some(n) => n,
                None => DEFAULT_CUSTOM_WIDTH,
            };
            let height = match parse_u32(self.custom_height.as_str()) {
                Some(n) => n,
                None => DEFAULT_CUSTOM_HEIGHT,
            };
            ResizePreset {
                name: "Custom",
                width,
                height,
                maintain_aspect_ratio: self.maintain_aspect_ratio,
                output_format: OutputFormat::KeepOriginal,
            }
        } else {
            self.selected_preset
        }
    }

    /// Whether the user may start a batch.
    pub fn can_process(&self) -> (allowed: bool)
        ensures
            allowed == self@.may_process(),
    {
        let idle = match &self.processing_status {
            ProcessingStatus::Idle => true,
            ProcessingStatus::Completed { .. } => true,
            _ => false,
        };
        self.selected_files.len() > 0 && self.output_directory.is_some() && idle
    }

    /// Starts a batch over the selected files, if one can be started: without
    /// files, without an output directory, or with a target size of zero, the
    /// log says why not and nothing else changes. Else the batch to run is
    /// handed out, and the state waits for its messages.
    pub fn start_processing(&mut self) -> (request: Option<BatchRequest>)
        ensures
            match old(self)@.refusal() {
                Some(line) => {
                    &&& request is None
                    &&& final(self)@ == (AppView {
                        log_messages: logged(old(self)@.log_messages, line),
                        ..old(self)@
                    })
                },
                None => {
                    &&& request matches Some(r)
                    &&& texts(r.files@) == old(self)@.selected_files
                    &&& Some(r.output_dir@) == old(self)@.output_directory
                    &&& r.preset == old(self)@.requested_preset()
                    &&& r.preset.is_valid()
                    &&& final(self)@ == (AppView { awaiting_results: true, ..old(self)@ })
                },
            },
            old(self).wf() ==> final(self).wf(),
    {
        if self.selected_files.len() == 0 {
            self.add_log_message(string_of(&chars_of("No files selected")));
            return None;
        }
        let output_dir = match &self.output_directory {
            Some(directory) => directory.clone(),
            None => {
                self.add_log_message(string_of(&chars_of("No output directory selected")));
                return None;
            },
        };
        let preset = self.requested_preset();
        if !preset.check_valid() {
            self.add_log_message(string_of(&chars_of("Target size must not be zero")));
            return None;
        }
        let mut files: Vec<String> = Vec::new();
        let mut i: usize = 0;
        while i < self.selected_files.len()
            invariant
                i <= self.selected_files.len(),
                files.len() == i,
                forall|j: int| 0 <= j < i ==> files[j]@ == self.selected_files[j]@,
            decreases self.selected_files.len() - i,
        {
            files.push(self.selected_files[i].clone());
            i += 1;
        }
        self.awaiting_results = true;
        Some(BatchRequest { files, output_dir, preset })
    }

    /// Takes in the statuses that have arrived since the last call, oldest
    /// first. Without a batch under way they are dropped.
    pub fn update_processing_status(&mut self, incoming: Vec<ProcessingStatus>)
        ensures
            final(self)@ == old(self)@.after_update(statuses(incoming@)),
            old(self).wf() ==> final(self).wf(),
    {
        if !self.awaiting_results {
            return ;
        }
        let ghost all = statuses(incoming@);
        let mut rest = incoming;
        let mut new_status: Option<ProcessingStatus> = None;
        let mut line: Option<String> = None;
        let mut ended = false;
        assert(all.take(rest.len() as int) == all);
        while rest.len() > 0
            invariant
                rest.len() <= all.len(),
                statuses(rest@) == all.take(rest.len() as int),
                match new_status {
                    Some(s) => all.len() > 0 && s@ == all.last(),
                    None => rest.len() == all.len(),
                },
                match line {
                    Some(l) => latest_line(all) == Some(l@),
                    None => latest_line(all) == latest_line(all.take(rest.len() as int)),
                },
                ended == any_terminal(all, rest.len() as int),
            decreases rest.len(),
        {
            let ghost before = rest@;
            let status = rest.pop().unwrap();
            proof {
                let k = rest.len() as int;
                assert(status@ == all[k]);
                assert(statuses(rest@) =~= all.take(k));
                assert(all.take(k + 1).drop_last() == all.take(k));
                if !is_terminal(all[k]) && any_terminal(all, k) {
                    let later = choose|i: int|
                        k <= i < all.len() && is_terminal(#[trigger] all[i]);
                    assert(any_terminal(all, k + 1));
                }
            }
            if line.is_none() {
                line = status.log_message();
            }
            if status.ends_run() {
                ended = true;
            }
            if new_status.is_none() {
                new_status = Some(status);
            }
        }
        if let Some(message) = line {
            self.add_log_message(message);
        }
        if ended {
            self.awaiting_results = false;
        }
        if let Some(status) = new_status {
            self.processing_status = status;
        }
    }
}

impl Default for ImageResizerApp {
    /// The state at start.
    fn default() -> (app: ImageResizerApp)
        ensures
            app@ == AppView::initial(),
    {
        ImageResizerApp::new()
    }
}

} // verus!
