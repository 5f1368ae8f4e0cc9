use amaterasu::io::run::WipeError;
use amaterasu::io::run::WipeStep;
use amaterasu::security::metadata::MetadataWiper;
use amaterasu::security::metadata::Removal;
use amaterasu::security::verification::WipeVerifier;
use amaterasu::security::ReadbackVerifier;
use amaterasu::security::VerificationMethod;

#[test]
fn test_zero_verification() {
    let content = vec![0u8; 1024];

    let verifier = WipeVerifier::new();
    let result = verifier.verify_zero_fill(&content);
    assert!(result);
}

#[test]
fn test_pattern_verification() {
    let pattern = [0xAA, 0x55];
    let data = pattern.repeat(512);

    let verifier = WipeVerifier::new();
    let result = verifier.verify_pattern(&data, &pattern);
    assert!(result);
}

#[test]
fn test_metadata_wiper_creation() {
    let wiper = MetadataWiper::default();
    assert_eq!(wiper.rename_iterations, 3);
    assert!(wiper.timestamp_randomization);
    assert!(wiper.clear_extended_attributes);
}

#[test]
fn test_random_name_generation() {
    let wiper = MetadataWiper::default();

    let random_name_0 = wiper.generate_random_name(0).unwrap();
    let random_name_1 = wiper.generate_random_name(1).unwrap();
    let random_name_2 = wiper.generate_random_name(2).unwrap();

    // Check that names have expected lengths
    assert_eq!(random_name_0.len(), 16);
    assert_eq!(random_name_1.len(), 8);
    assert_eq!(random_name_2.len(), 1);

    // Names should be different
    assert_ne!(random_name_0, random_name_1);
    assert_ne!(random_name_1, random_name_2);
}

#[test]
fn test_file_metadata_wiping() {
    let wiper = MetadataWiper::new(2);
    let mut run = wiper.wipe_file_metadata();
    let mut steps = Vec::new();
    while let Some(step) = run.current() {
        steps.push(step);
        run.complete(true);
    }
    assert_eq!(
        steps,
        vec![
            WipeStep::RandomizeTimestamps,
            WipeStep::ClearExtendedAttributes,
            WipeStep::Rename { iteration: 0 },
            WipeStep::Rename { iteration: 1 },
            WipeStep::Unlink,
        ]
    );

    // File should be deleted after metadata wiping
    assert_eq!(run.result(), Some(Ok(())));
}

#[test]
fn a_single_wrong_byte_fails_verification() {
    let verifier = WipeVerifier::new();
    let mut content = vec![0u8; 20000];
    assert!(verifier.verify_zero_fill(&content));
    content[19999] = 1;
    assert!(!verifier.verify_zero_fill(&content));
    content[19999] = 0;
    content[8192] = 7;
    assert!(!verifier.verify_zero_fill(&content));
    let pattern = [1u8, 2, 3];
    let mut data = pattern.repeat(5000);
    data.push(1);
    assert!(verifier.verify_pattern(&data, &pattern));
    data[8193] ^= 0xFF;
    assert!(!verifier.verify_pattern(&data, &pattern));
    assert!(WipeVerifier::default().verify_zero_fill(&[]));
    assert!(verifier.verify_pattern(&[], &[]));
    assert!(verifier.verify_pattern(&[], &pattern));
}

#[test]
fn pattern_is_counted_from_the_start_of_the_file() {
    let verifier = WipeVerifier::with_method(ReadbackVerifier);
    assert!(verifier.verify_pattern(&[1, 2, 3, 1, 2], &[1, 2, 3]));
    assert!(!verifier.verify_pattern(&[2, 3, 1, 2, 3], &[1, 2, 3]));
    assert!(verifier.verify_pattern(&[9], &[9, 8, 7, 6]));
    assert!(ReadbackVerifier.verify(&[5, 5, 5], Some(&[5])));
    assert!(!ReadbackVerifier.verify(&[5, 5, 4], Some(&[5])));
    assert!(ReadbackVerifier.verify(&[0, 0], None));
    assert!(!ReadbackVerifier.verify(&[0, 1], None));
}

#[test]
fn windows_are_checked_at_their_offset() {
    let pattern = [1u8, 2, 3];
    assert!(ReadbackVerifier.verify_window(0, &[1, 2, 3, 1], Some(&pattern)));
    assert!(ReadbackVerifier.verify_window(4, &[2, 3, 1], Some(&pattern)));
    assert!(!ReadbackVerifier.verify_window(3, &[2, 3, 1], Some(&pattern)));
    assert!(ReadbackVerifier.verify_window(8192, &[3, 1, 2], Some(&pattern)));
    assert!(ReadbackVerifier.verify_window(u64::MAX, &[1, 2], Some(&pattern)));
    assert!(ReadbackVerifier.verify_window(17, &[0, 0], None));
    assert!(!ReadbackVerifier.verify_window(17, &[0, 2], None));
    assert!(ReadbackVerifier.verify_window(17, &[], None));
}

#[test]
fn reads_are_windows_of_eight_kibibytes() {
    assert_eq!(ReadbackVerifier::next_read_size(20000, 0), 8192);
    assert_eq!(ReadbackVerifier::next_read_size(20000, 8192), 8192);
    assert_eq!(ReadbackVerifier::next_read_size(20000, 16384), 3616);
    assert_eq!(ReadbackVerifier::next_read_size(20000, 20000), 0);
    assert_eq!(ReadbackVerifier::next_read_size(20000, 30000), 0);
    assert_eq!(ReadbackVerifier::next_read_size(0, 0), 0);
    assert_eq!(ReadbackVerifier::next_read_size(u64::MAX, 0), 8192);
}

#[test]
fn names_get_shorter_from_rename_to_rename() {
    assert_eq!(MetadataWiper::rename_length(0), 16);
    assert_eq!(MetadataWiper::rename_length(1), 8);
    assert_eq!(MetadataWiper::rename_length(2), 1);
    assert_eq!(MetadataWiper::rename_length(3), 1);
    assert_eq!(MetadataWiper::rename_length(usize::MAX), 1);
}

#[test]
fn random_names_stay_in_their_directory() {
    let wiper = MetadataWiper::new(3);
    for iteration in 0..4 {
        for _ in 0..50 {
            let name = wiper.generate_random_name(iteration).unwrap();
            assert_eq!(name.len(), MetadataWiper::rename_length(iteration));
            assert!(name.chars().all(|c| c.is_ascii_alphanumeric()));
            assert!(!name.contains('/'));
            assert_ne!(name, ".");
            assert_ne!(name, "..");
        }
    }
    let first = wiper.generate_random_name(0).unwrap();
    let second = wiper.generate_random_name(0).unwrap();
    assert_ne!(first, second);
}

#[test]
fn chosen_instants_lie_in_the_last_ten_years() {
    let wiper = MetadataWiper::default();
    let now: u64 = 1_800_000_000;
    let mut seen_different = false;
    let first = wiper.randomize_timestamps(now).unwrap();
    for _ in 0..100 {
        let instant = wiper.randomize_timestamps(now).unwrap();
        assert!(instant <= now);
        assert!(now - instant < 315_360_000);
        if instant != first {
            seen_different = true;
        }
    }
    assert!(seen_different);
    assert_eq!(MetadataWiper::timestamp_before(100, 30), 70);
    assert_eq!(MetadataWiper::timestamp_before(100, 100), 0);
    assert_eq!(MetadataWiper::timestamp_before(100, 101), 0);
    assert_eq!(MetadataWiper::timestamp_before(u64::MAX, 0), u64::MAX);
    for _ in 0..20 {
        assert!(wiper.randomize_timestamps(5).unwrap() <= 5);
    }
}

#[test]
fn steps_of_the_scrub() {
    let wiper = MetadataWiper {
        rename_iterations: 1,
        timestamp_randomization: false,
        clear_extended_attributes: true,
    };
    assert_eq!(
        wiper.metadata_steps(),
        vec![
            WipeStep::ClearExtendedAttributes,
            WipeStep::Rename { iteration: 0 },
            WipeStep::Unlink,
        ]
    );
    let bare = MetadataWiper {
        rename_iterations: 0,
        timestamp_randomization: false,
        clear_extended_attributes: false,
    };
    assert_eq!(bare.metadata_steps(), vec![WipeStep::Unlink]);
    assert_eq!(MetadataWiper::new(5).rename_iterations, 5);
    assert!(MetadataWiper::new(5).timestamp_randomization);
    assert!(MetadataWiper::new(5).clear_extended_attributes);
}

#[test]
fn scrub_of_a_directory_ends_with_its_removal() {
    let wiper = MetadataWiper::new(0);
    let mut run = wiper.wipe_directory_metadata();
    assert_eq!(run.current(), Some(WipeStep::RandomizeTimestamps));
    run.complete(false);
    run.complete(false);
    assert_eq!(run.current(), Some(WipeStep::Unlink));
    run.complete(false);
    assert_eq!(run.result(), Some(Err(WipeError::UnlinkError)));
    assert_eq!(wiper.secure_unlink(true), Removal::Directory);
    assert_eq!(wiper.secure_unlink(false), Removal::File);
}

#[test]
fn rename_targets_lie_in_the_directory() {
    let wiper = MetadataWiper::default();
    for iteration in 0..3 {
        let target = wiper.rename_target("/tmp/work", iteration).unwrap();
        let name = target.strip_prefix("/tmp/work/").unwrap();
        assert_eq!(name.len(), MetadataWiper::rename_length(iteration));
        assert!(name.chars().all(|c| c.is_ascii_alphanumeric()));
        assert_eq!(std::path::Path::new(&target).parent(), Some(std::path::Path::new("/tmp/work")));
    }
    let at_root = wiper.rename_target("/", 1).unwrap();
    assert_eq!(at_root.len(), 9);
    assert!(at_root.starts_with('/'));
    assert!(!at_root[1..].contains('/'));
    let relative = wiper.rename_target("", 2).unwrap();
    assert_eq!(relative.len(), 1);
}

#[test]
fn attribute_listing_names_the_attributes() {
    let wiper = MetadataWiper::default();
    let listing = b"# file: /tmp/x\nuser.comment\nuser.origin\n\n";
    assert_eq!(
        wiper.clear_extended_attributes(listing),
        vec![b"user.comment".to_vec(), b"user.origin".to_vec()]
    );
    assert!(wiper.clear_extended_attributes(b"").is_empty());
    assert!(wiper.clear_extended_attributes(b"# file: /tmp/x\n\n").is_empty());
    assert_eq!(wiper.clear_extended_attributes(b"a#b"), vec![b"a#b".to_vec()]);
}
