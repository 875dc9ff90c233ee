use resize_rs::application::ImageResizerApp;
use resize_rs::presets::{OutputFormat, ResizePreset};
use resize_rs::status::ProcessingStatus;

fn ready() -> ImageResizerApp {
    let mut app = ImageResizerApp::new();
    app.select_files(Some(vec!["a.png".to_string(), "b.jpg".to_string()]));
    app.select_output_directory(Some("out".to_string()));
    app
}

#[test]
fn application_starts_empty() {
    let app = ImageResizerApp::new();
    assert!(app.selected_files.is_empty());
    assert_eq!(app.output_directory, None);
    assert_eq!(app.selected_preset, ResizePreset::default());
    assert_eq!(app.custom_width, "800");
    assert_eq!(app.custom_height, "600");
    assert!(app.maintain_aspect_ratio);
    assert!(!app.use_custom_size);
    assert_eq!(app.processing_status, ProcessingStatus::Idle);
    assert!(!app.awaiting_results);
    assert!(app.log_messages.is_empty());
    let by_default = ImageResizerApp::default();
    assert!(by_default.log_messages.is_empty());
    assert_eq!(by_default.custom_width, "800");
}

#[test]
fn log_keeps_its_last_hundred_lines() {
    let mut app = ImageResizerApp::new();
    for i in 0..100 {
        app.add_log_message(format!("line {}", i));
    }
    assert_eq!(app.log_messages.len(), 100);
    assert_eq!(app.log_messages[0], "line 0");
    app.add_log_message("line 100".to_string());
    assert_eq!(app.log_messages.len(), 100);
    assert_eq!(app.log_messages[0], "line 1");
    assert_eq!(app.log_messages[99], "line 100");
    app.add_log_message("line 101".to_string());
    assert_eq!(app.log_messages.len(), 100);
    assert_eq!(app.log_messages[0], "line 2");
    assert_eq!(app.log_messages[98], "line 100");
    assert_eq!(app.log_messages[99], "line 101");
}

#[test]
fn log_that_is_too_long_loses_one_line_at_a_time() {
    let mut app = ImageResizerApp::new();
    app.log_messages = (0..150).map(|i| format!("old {}", i)).collect();
    app.add_log_message("new".to_string());
    assert_eq!(app.log_messages.len(), 150);
    assert_eq!(app.log_messages[0], "old 1");
    assert_eq!(app.log_messages[149], "new");
}

#[test]
fn picked_files_replace_the_selection() {
    let mut app = ImageResizerApp::new();
    app.select_files(Some(vec!["a.png".to_string()]));
    app.select_files(Some(vec!["b.png".to_string(), "c.png".to_string()]));
    assert_eq!(app.selected_files, vec!["b.png", "c.png"]);
    assert_eq!(app.log_messages, vec!["Selected 1 files", "Selected 2 files"]);
    app.select_files(None);
    assert_eq!(app.selected_files, vec!["b.png", "c.png"]);
    assert_eq!(app.log_messages.len(), 2);
    app.select_files(Some(Vec::new()));
    assert!(app.selected_files.is_empty());
    assert_eq!(app.log_messages[2], "Selected 0 files");
}

#[test]
fn picked_directory_becomes_the_output_directory() {
    let mut app = ImageResizerApp::new();
    app.select_output_directory(None);
    assert_eq!(app.output_directory, None);
    assert!(app.log_messages.is_empty());
    app.select_output_directory(Some("/tmp/out".to_string()));
    assert_eq!(app.output_directory, Some("/tmp/out".to_string()));
    assert_eq!(app.log_messages, vec!["Output directory selected"]);
}

#[test]
fn batch_is_not_started_without_files() {
    let mut app = ImageResizerApp::new();
    app.select_output_directory(Some("out".to_string()));
    assert!(app.start_processing().is_none());
    assert_eq!(app.log_messages.last().unwrap(), "No files selected");
    assert!(!app.awaiting_results);
}

#[test]
fn batch_is_not_started_without_an_output_directory() {
    let mut app = ImageResizerApp::new();
    app.select_files(Some(vec!["a.png".to_string()]));
    assert!(app.start_processing().is_none());
    assert_eq!(app.log_messages.last().unwrap(), "No output directory selected");
    assert!(!app.awaiting_results);
}

#[test]
fn batch_is_not_started_with_a_zero_size() {
    let mut app = ready();
    app.use_custom_size = true;
    app.custom_width = "0".to_string();
    assert!(app.start_processing().is_none());
    assert_eq!(app.log_messages.last().unwrap(), "Target size must not be zero");
    assert!(!app.awaiting_results);

    app.use_custom_size = false;
    app.selected_preset.height = 0;
    assert!(app.start_processing().is_none());
    assert_eq!(app.log_messages.last().unwrap(), "Target size must not be zero");
}

#[test]
fn batch_starts_with_the_selected_preset() {
    let mut app = ready();
    app.selected_preset = ResizePreset::presets()[4];
    let lines = app.log_messages.len();
    let request = app.start_processing().unwrap();
    assert_eq!(request.files, vec!["a.png", "b.jpg"]);
    assert_eq!(request.output_dir, "out");
    assert_eq!(request.preset, ResizePreset::presets()[4]);
    assert!(app.awaiting_results);
    assert_eq!(app.log_messages.len(), lines);
    assert_eq!(app.processing_status, ProcessingStatus::Idle);
    assert_eq!(app.selected_files, vec!["a.png", "b.jpg"]);
}

#[test]
fn batch_starts_with_the_custom_size() {
    let mut app = ready();
    app.use_custom_size = true;
    app.custom_width = "1024".to_string();
    app.custom_height = "768".to_string();
    app.maintain_aspect_ratio = false;
    let request = app.start_processing().unwrap();
    assert_eq!(
        request.preset,
        ResizePreset {
            name: "Custom",
            width: 1024,
            height: 768,
            maintain_aspect_ratio: false,
            output_format: OutputFormat::KeepOriginal,
        }
    );
}

#[test]
fn custom_size_that_is_no_number_falls_back() {
    let mut app = ready();
    app.use_custom_size = true;
    app.custom_width = "wide".to_string();
    app.custom_height = "".to_string();
    let preset = app.requested_preset();
    assert_eq!((preset.width, preset.height), (800, 600));
    app.custom_width = "99999999999".to_string();
    app.custom_height = "-5".to_string();
    let preset = app.requested_preset();
    assert_eq!((preset.width, preset.height), (800, 600));
    app.custom_width = "+12".to_string();
    app.custom_height = "034".to_string();
    let preset = app.requested_preset();
    assert_eq!((preset.width, preset.height), (12, 34));
    assert!(preset.maintain_aspect_ratio);
    app.use_custom_size = false;
    assert_eq!(app.requested_preset(), ResizePreset::default());
}

#[test]
fn statuses_are_taken_in_while_a_batch_runs() {
    let mut app = ready();
    app.start_processing().unwrap();
    let lines = app.log_messages.len();
    app.update_processing_status(vec![
        ProcessingStatus::Processing {
            current: 0,
            total: 2,
        },
        ProcessingStatus::Processing {
            current: 1,
            total: 2,
        },
    ]);
    // only the last line of one update is logged
    assert_eq!(app.log_messages.len(), lines + 1);
    assert_eq!(app.log_messages.last().unwrap(), "Processing 2 of 2");
    assert_eq!(
        app.processing_status,
        ProcessingStatus::Processing {
            current: 1,
            total: 2
        }
    );
    assert!(app.awaiting_results);

    app.update_processing_status(Vec::new());
    assert_eq!(app.log_messages.len(), lines + 1);
    assert!(app.awaiting_results);

    app.update_processing_status(vec![
        ProcessingStatus::Processing {
            current: 2,
            total: 2,
        },
        ProcessingStatus::Completed {
            successful: 1,
            failed: 1,
        },
    ]);
    assert_eq!(
        app.log_messages.last().unwrap(),
        "Processing completed: 1 successful, 1 failed"
    );
    assert_eq!(
        app.processing_status,
        ProcessingStatus::Completed {
            successful: 1,
            failed: 1
        }
    );
    assert!(!app.awaiting_results);
}

#[test]
fn error_status_ends_the_waiting() {
    let mut app = ready();
    app.start_processing().unwrap();
    app.update_processing_status(vec![ProcessingStatus::Error("boom".to_string())]);
    assert_eq!(app.log_messages.last().unwrap(), "Error: boom");
    assert_eq!(
        app.processing_status,
        ProcessingStatus::Error("boom".to_string())
    );
    assert!(!app.awaiting_results);
}

#[test]
fn idle_status_adds_no_line_but_becomes_current() {
    let mut app = ready();
    app.start_processing().unwrap();
    let lines = app.log_messages.len();
    app.update_processing_status(vec![
        ProcessingStatus::Completed {
            successful: 3,
            failed: 0,
        },
        ProcessingStatus::Idle,
    ]);
    assert_eq!(app.log_messages.len(), lines + 1);
    assert_eq!(
        app.log_messages.last().unwrap(),
        "Processing completed: 3 successful, 0 failed"
    );
    assert_eq!(app.processing_status, ProcessingStatus::Idle);
    assert!(!app.awaiting_results);
}

#[test]
fn statuses_are_dropped_without_a_batch() {
    let mut app = ready();
    let lines = app.log_messages.len();
    app.update_processing_status(vec![ProcessingStatus::Completed {
        successful: 1,
        failed: 0,
    }]);
    assert_eq!(app.log_messages.len(), lines);
    assert_eq!(app.processing_status, ProcessingStatus::Idle);
}

#[test]
fn processing_is_allowed_when_idle_or_completed() {
    let mut app = ImageResizerApp::new();
    assert!(!app.can_process());
    app.select_files(Some(vec!["a.png".to_string()]));
    assert!(!app.can_process());
    app.select_output_directory(Some("out".to_string()));
    assert!(app.can_process());
    app.processing_status = ProcessingStatus::Processing {
        current: 0,
        total: 1,
    };
    assert!(!app.can_process());
    app.processing_status = ProcessingStatus::Completed {
        successful: 1,
        failed: 0,
    };
    assert!(app.can_process());
    app.processing_status = ProcessingStatus::Error("x".to_string());
    assert!(!app.can_process());
}
