use resize_rs::error::ProcessingError;
use resize_rs::status::ProcessingStatus;

#[test]
fn summary_counts_outputs_and_errors() {
    let results: Vec<Result<u8, ProcessingError>> = vec![
        Ok(1),
        Err(ProcessingError::DecodeError),
        Ok(2),
        Err(ProcessingError::WriteError),
        Err(ProcessingError::InvalidFileName),
    ];
    assert_eq!(
        ProcessingStatus::summary(&results),
        ProcessingStatus::Completed {
            successful: 2,
            failed: 3
        }
    );
    let none: Vec<Result<u8, ProcessingError>> = Vec::new();
    assert_eq!(
        ProcessingStatus::summary(&none),
        ProcessingStatus::Completed {
            successful: 0,
            failed: 0
        }
    );
}

#[test]
fn log_lines_of_the_statuses() {
    assert_eq!(ProcessingStatus::Idle.log_message(), None);
    assert_eq!(
        ProcessingStatus::Processing {
            current: 0,
            total: 3
        }
        .log_message(),
        Some("Processing 1 of 3".to_string())
    );
    assert_eq!(
        ProcessingStatus::Processing {
            current: usize::MAX,
            total: usize::MAX
        }
        .log_message(),
        Some(format!(
            "Processing {} of {}",
            usize::MAX as u128 + 1,
            usize::MAX
        ))
    );
    assert_eq!(
        ProcessingStatus::Completed {
            successful: 2,
            failed: 1
        }
        .log_message(),
        Some("Processing completed: 2 successful, 1 failed".to_string())
    );
    assert_eq!(
        ProcessingStatus::Error("disk on fire".to_string()).log_message(),
        Some("Error: disk on fire".to_string())
    );
}

#[test]
fn display_lines_of_the_statuses() {
    assert_eq!(ProcessingStatus::Idle.display_text(), "Ready");
    assert_eq!(
        ProcessingStatus::Processing {
            current: 4,
            total: 10
        }
        .display_text(),
        "Processing 5 of 10"
    );
    assert_eq!(
        ProcessingStatus::Completed {
            successful: 0,
            failed: 12
        }
        .display_text(),
        "Completed: 0 successful, 12 failed"
    );
    assert_eq!(
        ProcessingStatus::Error(String::new()).display_text(),
        "Error: "
    );
}

#[test]
fn only_completed_and_error_end_a_run() {
    assert!(!ProcessingStatus::Idle.ends_run());
    assert!(!ProcessingStatus::Processing {
        current: 3,
        total: 3
    }
    .ends_run());
    assert!(ProcessingStatus::Completed {
        successful: 0,
        failed: 0
    }
    .ends_run());
    assert!(ProcessingStatus::Error("x".to_string()).ends_run());
}
