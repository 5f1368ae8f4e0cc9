use amaterasu::filesystem::FilesystemOptimizer;
use amaterasu::filesystem::FilesystemType;
use amaterasu::filesystem::HookAction;
use amaterasu::io::async_writer::AsyncWiper;
use amaterasu::io::run::Advisory;
use amaterasu::io::run::WipeError;
use amaterasu::io::run::WipeStep;
use amaterasu::io::FileWiper;
use amaterasu::io::VerifyOutcome;
use amaterasu::io::WritePath;
use amaterasu::patterns::WipePattern;
use amaterasu::storage::detector::SysfsQueue;
use amaterasu::storage::StorageType;
use amaterasu::Amaterasu;
use amaterasu::AmaterasuConfig;
use amaterasu::BatchStep;
use amaterasu::Collected;
use amaterasu::PathKind;
use amaterasu::WipeMode;

fn config(mode: WipeMode, verify: bool, wipe_metadata: bool) -> AmaterasuConfig {
    AmaterasuConfig {
        verify,
        progress: true,
        force: false,
        mode,
        wipe_metadata,
        metadata_passes: 3,
    }
}

fn streamed_pass(wiper: &FileWiper, pattern: &mut WipePattern, file: &mut Vec<u8>) -> usize {
    let mut cursor = wiper.wipe_pass(file.len() as u64);
    let mut buffer = Vec::new();
    let mut written = 0;
    while !cursor.is_complete() {
        let offset = cursor.bytes_written() as usize;
        let size = cursor.fill_chunk(pattern, &mut buffer);
        file[offset..offset + size].copy_from_slice(&buffer[..size]);
        written += size;
        cursor.record_written();
    }
    written
}

#[test]
fn small_file_fast_mode_unknown_medium() {
    let storage = StorageType::Unknown;
    let wiper = FileWiper::new(&storage, config(WipeMode::Fast, false, false));
    let mut file = vec![b'A'; 4096];
    let mut plan = wiper.wipe(Some(4096), FilesystemType::Unknown).unwrap();
    assert_eq!(plan.patterns.len(), 1);
    assert_eq!(plan.write_path, WritePath::Streamed);
    assert_eq!(plan.progress_total, 4096);
    let mut passes = 0;
    let mut removed = false;
    while let Some(step) = plan.run.current() {
        match step {
            WipeStep::WritePass { pass } => {
                let written = streamed_pass(&wiper, &mut plan.patterns[pass], &mut file);
                assert_eq!(written, 4096);
                passes += 1;
            }
            WipeStep::Unlink => removed = true,
            WipeStep::PreWipeSetup | WipeStep::PostWipeCleanup => {}
            other => panic!("unexpected step {:?}", other),
        }
        plan.run.complete(true);
    }
    assert_eq!(passes, 1);
    assert!(removed);
    assert_eq!(plan.run.result(), Some(Ok(())));
    assert_ne!(file, vec![b'A'; 4096]);
}

#[test]
fn standard_mode_on_an_ssd_with_verification() {
    let storage = StorageType::SSD { trim_support: true };
    let wiper = FileWiper::new(&storage, config(WipeMode::Standard, true, false));
    let size = 1024 * 1024;
    let mut file = vec![0u8; size];
    let mut plan = wiper
        .wipe(Some(size as u64), FilesystemType::Ext4 { has_journal: true })
        .unwrap();
    assert_eq!(plan.patterns.len(), 3);
    assert_eq!(plan.patterns[0].name(), "random");
    assert_eq!(plan.patterns[1].name(), "zeros");
    assert_eq!(plan.patterns[2].name(), "random");
    assert_eq!(plan.write_path, WritePath::Streamed);
    let mut verified = None;
    let mut order = Vec::new();
    while let Some(step) = plan.run.current() {
        order.push(step);
        match step {
            WipeStep::WritePass { pass } => {
                streamed_pass(&wiper, &mut plan.patterns[pass], &mut file);
                if pass == 1 {
                    assert!(file.iter().all(|&b| b == 0));
                }
            }
            WipeStep::Verify => {
                let mut scan = wiper.verify_wipe(size as u64);
                loop {
                    let wanted = scan.next_read_size();
                    if wanted == 0 {
                        break;
                    }
                    scan.feed(&file[..wanted]);
                }
                verified = Some(scan.outcome());
            }
            _ => {}
        }
        plan.run.complete(true);
    }
    assert_eq!(verified, Some(VerifyOutcome::PatternFound));
    assert_eq!(
        order,
        vec![
            WipeStep::PreWipeSetup,
            WipeStep::WritePass { pass: 0 },
            WipeStep::WritePass { pass: 1 },
            WipeStep::WritePass { pass: 2 },
            WipeStep::Verify,
            WipeStep::PostWipeCleanup,
            WipeStep::Unlink,
        ]
    );
    assert_eq!(plan.run.result(), Some(Ok(())));
}

#[test]
fn paranoid_mode_on_btrfs() {
    let storage = StorageType::HDD { block_size: 512 };
    let wiper = FileWiper::new(&storage, config(WipeMode::Paranoid, false, false));
    let plan = wiper
        .wipe(Some(512 * 1024), FilesystemType::Btrfs { subvolume: false })
        .unwrap();
    assert!(plan.patterns.len() >= 7);
    assert!(plan.patterns.len() >= plan.optimizer.get_recommended_passes());
    assert_eq!(plan.optimizer.pre_wipe_setup(), HookAction::DisableCow);
    assert_eq!(plan.optimizer.post_wipe_cleanup(), HookAction::Sync);
    assert!(plan.optimizer.should_disable_cow());
    assert_eq!(plan.write_path, WritePath::Streamed);
    assert_eq!(plan.progress_total, 7 * 512 * 1024);
    let names: Vec<&str> = plan.patterns.iter().map(|p| p.name()).collect();
    assert_eq!(names, vec!["random", "0x55", "0xAA", "random", "ones", "zeros", "random"]);
}

#[test]
fn large_file_is_written_in_parallel() {
    let storage = StorageType::Unknown;
    let wiper = FileWiper::new(&storage, config(WipeMode::Fast, false, false));
    let size: usize = 64 * 1024 * 1024;
    let mut file = vec![0u8; size];
    let mut plan = wiper.plan_with(
        size as u64,
        FilesystemType::Unknown,
        vec![WipePattern::Fixed(0xAA)],
    );
    assert_eq!(plan.write_path, WritePath::Parallel);
    let chunk_size = wiper.parallel_chunk_size().unwrap();
    assert_eq!(chunk_size, 65536);
    let mut writer = AsyncWiper::new(chunk_size);
    let chunks = wiper.async_wipe_pass(size as u64, &writer);
    assert_eq!(chunks.len(), 1024);
    let mut passes = 0;
    while let Some(step) = plan.run.current() {
        if let WipeStep::WritePass { pass } = step {
            passes += 1;
            let mut total = 0;
            for index in (0..chunks.len()).rev() {
                let chunk = chunks[index];
                let mut pattern = plan.patterns[pass].try_clone().unwrap();
                let write = writer.wipe_chunk(&mut pattern, chunk.start_offset, chunk.size);
                let start = write.start_offset as usize;
                file[start..start + write.size].copy_from_slice(&write.buffer[..write.size]);
                total += write.size;
                writer.finish_chunk(write);
            }
            assert_eq!(total, size);
        }
        plan.run.complete(true);
    }
    assert_eq!(passes, 1);
    assert!(file.iter().all(|&b| b == 0xAA));
    assert_eq!(plan.run.result(), Some(Ok(())));
}

#[test]
fn a_write_error_keeps_the_file() {
    let storage = StorageType::Unknown;
    let wiper = FileWiper::new(&storage, config(WipeMode::Standard, true, true));
    let mut plan = wiper.wipe(Some(3_000_000), FilesystemType::Unknown).unwrap();
    let mut executed = Vec::new();
    while let Some(step) = plan.run.current() {
        executed.push(step);
        let ok = !matches!(step, WipeStep::WritePass { pass: 0 });
        plan.run.complete(ok);
    }
    assert_eq!(executed, vec![WipeStep::PreWipeSetup, WipeStep::WritePass { pass: 0 }]);
    assert!(!executed.contains(&WipeStep::Unlink));
    assert_eq!(plan.run.result(), Some(Err(WipeError::WriteError)));
    assert!(plan.run.is_finished());
}

#[test]
fn a_failed_rename_and_a_failed_removal() {
    let storage = StorageType::Unknown;
    let wiper = FileWiper::new(&storage, config(WipeMode::Fast, false, true));
    let mut plan = wiper.wipe(Some(100), FilesystemType::Unknown).unwrap();
    let mut executed = Vec::new();
    let mut warnings = Vec::new();
    while let Some(step) = plan.run.current() {
        executed.push(step);
        let ok = !matches!(step, WipeStep::Rename { .. } | WipeStep::Unlink);
        if let Some(advisory) = plan.run.complete(ok) {
            warnings.push(advisory);
        }
    }
    assert_eq!(
        executed,
        vec![
            WipeStep::PreWipeSetup,
            WipeStep::WritePass { pass: 0 },
            WipeStep::PostWipeCleanup,
            WipeStep::RandomizeTimestamps,
            WipeStep::ClearExtendedAttributes,
            WipeStep::Rename { iteration: 0 },
            WipeStep::Unlink,
        ]
    );
    assert_eq!(warnings, vec![Advisory::Metadata]);
    assert_eq!(plan.run.result(), Some(Err(WipeError::UnlinkError)));
}

#[test]
fn a_successful_wipe_ends_with_the_removal() {
    let storage = StorageType::Unknown;
    for verify in [false, true] {
        for wipe_metadata in [false, true] {
            let wiper = FileWiper::new(&storage, config(WipeMode::Standard, verify, wipe_metadata));
            let mut plan = wiper.wipe(Some(10), FilesystemType::Zfs).unwrap();
            let mut last = None;
            while let Some(step) = plan.run.current() {
                last = Some(step);
                plan.run.complete(true);
            }
            assert_eq!(last, Some(WipeStep::Unlink));
            assert_eq!(plan.run.result(), Some(Ok(())));
        }
    }
}

#[test]
fn wiping_a_file_from_what_was_found_out() {
    let amaterasu = Amaterasu::new(config(WipeMode::Fast, false, false));
    let queue = SysfsQueue {
        rotational: Some(b"1\n".to_vec()),
        logical_block_size: Some(b"512\n".to_vec()),
        optimal_io_size: None,
        discard_granularity: None,
    };
    let plan = amaterasu
        .wipe_file(Some(0x0800), &queue, Some(2048), FilesystemType::Zfs)
        .unwrap();
    assert_eq!(plan.patterns.len(), 2);
    assert_eq!(plan.file_size, 2048);
    assert_eq!(plan.progress_total, 4096);
    assert!(matches!(
        amaterasu.wipe_file(None, &queue, Some(2048), FilesystemType::Zfs),
        Err(WipeError::PathError)
    ));
    assert!(matches!(
        amaterasu.wipe_file(Some(0x0800), &queue, None, FilesystemType::Zfs),
        Err(WipeError::PathError)
    ));
}

#[test]
fn paths_of_the_command_line() {
    let careful = Amaterasu::new(config(WipeMode::Fast, false, false));
    let kinds = vec![PathKind::File, PathKind::Directory, PathKind::Other];
    assert_eq!(
        careful.collect_files(&kinds, false),
        vec![Collected::Take, Collected::WarnDirectory, Collected::WarnMissing]
    );
    assert_eq!(
        careful.collect_files(&kinds, true),
        vec![Collected::Take, Collected::Expand, Collected::WarnMissing]
    );
    let mut forced_config = config(WipeMode::Fast, false, false);
    forced_config.force = true;
    let forced = Amaterasu::new(forced_config);
    assert_eq!(
        forced.collect_files(&kinds, false),
        vec![Collected::Take, Collected::Skip, Collected::Skip]
    );
    assert_eq!(
        forced.collect_files(&kinds, true),
        vec![Collected::Take, Collected::Expand, Collected::Skip]
    );
    assert!(careful.collect_files(&Vec::new(), true).is_empty());
    assert_eq!(careful.wipe_files(true), BatchStep::Continue);
    assert_eq!(careful.wipe_files(false), BatchStep::Abort);
    assert_eq!(forced.wipe_files(true), BatchStep::Continue);
    assert_eq!(forced.wipe_files(false), BatchStep::WarnAndContinue);
}

#[test]
fn directories_are_looked_at_deepest_first() {
    let amaterasu = Amaterasu::new(config(WipeMode::Fast, false, false));
    let depths = vec![2, 5, 3, 5, 1];
    let order = amaterasu.cleanup_empty_directories(&depths);
    assert_eq!(order, vec![1, 3, 2, 0, 4]);
    assert!(amaterasu.cleanup_empty_directories(&Vec::new()).is_empty());
    assert_eq!(amaterasu.cleanup_empty_directories(&vec![7]), vec![0]);
    let rising: Vec<usize> = (0..50).collect();
    let order = amaterasu.cleanup_empty_directories(&rising);
    let falling: Vec<usize> = (0..50).rev().collect();
    assert_eq!(order, falling);
    let mut seen = order.clone();
    seen.sort();
    assert_eq!(seen, rising);
}
