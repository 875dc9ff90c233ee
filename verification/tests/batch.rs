use image::{DynamicImage, ImageFormat, Rgb, RgbImage};
use resize_rs::batch::{Action, BatchRun, Reply, Stage};
use resize_rs::error::ProcessingError;
use resize_rs::presets::{OutputFormat, ResizePreset};
use resize_rs::resizer::{ImageResizer, SourceFile};
use std::collections::HashMap;
use std::io::Cursor;

fn png(width: u32, height: u32) -> Vec<u8> {
    let picture = DynamicImage::ImageRgb8(RgbImage::from_fn(width, height, |x, y| {
        Rgb([(x % 256) as u8, (y % 256) as u8, 9])
    }));
    let mut bytes = Vec::new();
    picture
        .write_to(&mut Cursor::new(&mut bytes), ImageFormat::Png)
        .unwrap();
    bytes
}

fn keep(width: u32, height: u32) -> ResizePreset {
    ResizePreset {
        name: "test",
        width,
        height,
        maintain_aspect_ratio: true,
        output_format: OutputFormat::KeepOriginal,
    }
}

// Drives a run against files held in memory; `read_only` lists the output
// paths that cannot be written. Returns every action in order, and what was
// stored.
fn drive(
    files: &[&str],
    disk: &HashMap<String, Vec<u8>>,
    read_only: &[&str],
    preset: ResizePreset,
) -> (BatchRun, Vec<Action>, HashMap<String, Vec<u8>>) {
    let (mut run, mut action) = BatchRun::start(
        files.iter().map(|f| f.to_string()).collect(),
        "out".to_string(),
        preset,
    );
    let mut actions = vec![action.clone()];
    let mut stored = HashMap::new();
    loop {
        let reply = match &action {
            Action::Report { .. } => Reply::Reported,
            Action::Read { path } => Reply::Contents(disk.get(path).cloned()),
            Action::Write { path, data } => {
                if read_only.contains(&path.as_str()) {
                    Reply::Stored(false)
                } else {
                    stored.insert(path.clone(), data.clone());
                    Reply::Stored(true)
                }
            }
            Action::Finish { .. } => break,
        };
        assert!(run.expects(&reply));
        action = run.step(reply);
        actions.push(action.clone());
    }
    (run, actions, stored)
}

fn reports(actions: &[Action]) -> Vec<(usize, usize)> {
    actions
        .iter()
        .filter_map(|a| match a {
            Action::Report { current, total } => Some((*current, *total)),
            _ => None,
        })
        .collect()
}

#[test]
fn run_of_three_files_with_a_corrupt_second() {
    let mut disk = HashMap::new();
    disk.insert("in/one.png".to_string(), png(40, 30));
    disk.insert("in/two.png".to_string(), b"corrupt".to_vec());
    disk.insert("in/three.png".to_string(), png(30, 40));
    let (run, actions, stored) = drive(
        &["in/one.png", "in/two.png", "in/three.png"],
        &disk,
        &[],
        keep(20, 20),
    );
    assert_eq!(
        run.outcomes(),
        &vec![
            Ok("out/one_resized_20x20.png".to_string()),
            Err(ProcessingError::DecodeError),
            Ok("out/three_resized_20x20.png".to_string()),
        ]
    );
    assert_eq!(
        actions.last(),
        Some(&Action::Finish {
            successful: 2,
            failed: 1
        })
    );
    assert_eq!(run.stage(), Stage::Finished);
    assert_eq!(stored.len(), 2);
    assert_eq!(
        Ok(stored["out/one_resized_20x20.png"].clone()),
        ImageResizer::resize_image("in/one.png", &disk["in/one.png"], &keep(20, 20))
    );
}

#[test]
fn run_reports_each_position_then_finishes() {
    let mut disk = HashMap::new();
    disk.insert("a.png".to_string(), png(8, 8));
    disk.insert("c.png".to_string(), png(8, 8));
    let (_, actions, _) = drive(&["a.png", "b.png", "c.png"], &disk, &[], keep(4, 4));
    assert_eq!(reports(&actions), vec![(0, 3), (1, 3), (2, 3), (3, 3)]);
    assert_eq!(
        actions,
        vec![
            Action::Report {
                current: 0,
                total: 3
            },
            Action::Read {
                path: "a.png".to_string()
            },
            Action::Write {
                path: "out/a_resized_4x4.png".to_string(),
                data: ImageResizer::resize_image("a.png", &disk["a.png"], &keep(4, 4)).unwrap(),
            },
            Action::Report {
                current: 1,
                total: 3
            },
            Action::Read {
                path: "b.png".to_string()
            },
            Action::Report {
                current: 2,
                total: 3
            },
            Action::Read {
                path: "c.png".to_string()
            },
            Action::Write {
                path: "out/c_resized_4x4.png".to_string(),
                data: ImageResizer::resize_image("c.png", &disk["c.png"], &keep(4, 4)).unwrap(),
            },
            Action::Report {
                current: 3,
                total: 3
            },
            Action::Finish {
                successful: 2,
                failed: 1
            },
        ]
    );
}

#[test]
fn run_without_files_reports_once_and_finishes() {
    let (run, actions, stored) = drive(&[], &HashMap::new(), &[], keep(4, 4));
    assert_eq!(
        actions,
        vec![
            Action::Report {
                current: 0,
                total: 0
            },
            Action::Finish {
                successful: 0,
                failed: 0
            },
        ]
    );
    assert!(run.outcomes().is_empty());
    assert!(stored.is_empty());
}

#[test]
fn file_without_a_name_is_not_read() {
    let mut disk = HashMap::new();
    disk.insert("..".to_string(), png(8, 8));
    disk.insert("ok.png".to_string(), png(8, 8));
    let (run, actions, _) = drive(&["..", "ok.png"], &disk, &[], keep(4, 4));
    assert_eq!(
        run.outcomes(),
        &vec![
            Err(ProcessingError::InvalidFileName),
            Ok("out/ok_resized_4x4.png".to_string()),
        ]
    );
    assert_eq!(
        actions[..3],
        [
            Action::Report {
                current: 0,
                total: 2
            },
            Action::Report {
                current: 1,
                total: 2
            },
            Action::Read {
                path: "ok.png".to_string()
            },
        ]
    );
}

#[test]
fn output_that_cannot_be_stored_is_a_write_error() {
    let mut disk = HashMap::new();
    disk.insert("a.png".to_string(), png(8, 8));
    disk.insert("b.png".to_string(), png(8, 8));
    let (run, actions, stored) = drive(
        &["a.png", "b.png"],
        &disk,
        &["out/a_resized_4x4.png"],
        keep(4, 4),
    );
    assert_eq!(
        run.outcomes(),
        &vec![
            Err(ProcessingError::WriteError),
            Ok("out/b_resized_4x4.png".to_string()),
        ]
    );
    assert_eq!(
        actions.last(),
        Some(&Action::Finish {
            successful: 1,
            failed: 1
        })
    );
    assert_eq!(stored.len(), 1);
}

#[test]
fn run_takes_only_the_answer_it_waits_for() {
    let (mut run, first) = BatchRun::start(
        vec!["a.png".to_string()],
        "out".to_string(),
        keep(4, 4),
    );
    assert_eq!(
        first,
        Action::Report {
            current: 0,
            total: 1
        }
    );
    assert_eq!(run.stage(), Stage::Reporting);
    assert!(run.expects(&Reply::Reported));
    assert!(!run.expects(&Reply::Contents(None)));
    assert!(!run.expects(&Reply::Stored(true)));

    assert_eq!(
        run.step(Reply::Reported),
        Action::Read {
            path: "a.png".to_string()
        }
    );
    assert_eq!(run.stage(), Stage::Reading);
    assert!(run.expects(&Reply::Contents(Some(Vec::new()))));
    assert!(!run.expects(&Reply::Reported));
    assert!(!run.expects(&Reply::Stored(false)));

    let written = run.step(Reply::Contents(Some(png(8, 8))));
    assert!(matches!(written, Action::Write { .. }));
    assert_eq!(run.stage(), Stage::Writing);
    assert!(run.expects(&Reply::Stored(false)));
    assert!(!run.expects(&Reply::Reported));
    assert!(run.outcomes().is_empty());

    assert_eq!(
        run.step(Reply::Stored(true)),
        Action::Report {
            current: 1,
            total: 1
        }
    );
    assert_eq!(run.outcomes().len(), 1);
    assert_eq!(
        run.step(Reply::Reported),
        Action::Finish {
            successful: 1,
            failed: 0
        }
    );
    assert_eq!(run.stage(), Stage::Finished);
    assert!(!run.expects(&Reply::Reported));
    assert!(!run.expects(&Reply::Contents(None)));
    assert!(!run.expects(&Reply::Stored(true)));
}

#[test]
fn run_gives_what_the_batch_in_memory_gives() {
    let mut disk = HashMap::new();
    disk.insert("a.png".to_string(), png(30, 20));
    disk.insert("b.png".to_string(), b"bad".to_vec());
    let names = ["a.png", "b.png", "missing.png", ".."];
    let (run, _, stored) = drive(&names, &disk, &[], keep(10, 10));
    let sources: Vec<SourceFile> = names
        .iter()
        .map(|n| SourceFile {
            path: n.to_string(),
            data: disk.get(*n).cloned(),
        })
        .collect();
    let results = ImageResizer::batch_resize(&sources, "out", &keep(10, 10), |_, _| {});
    assert_eq!(results.len(), run.outcomes().len());
    for (result, outcome) in results.iter().zip(run.outcomes()) {
        match (result, outcome) {
            (Ok(file), Ok(path)) => {
                assert_eq!(&file.path, path);
                assert_eq!(file.data, stored[path]);
            }
            (Err(a), Err(b)) => assert_eq!(a, b),
            _ => panic!("the run and the batch disagree"),
        }
    }
}
