use std::cell::{Cell, RefCell};
use std::collections::HashSet;

use id_registry::allocation::{generate_id, id_exists, AllocationError, AllocationState, MAX_RETRIES};
use id_registry::candidate::{generate_candidate, is_all_numeric};
use id_registry::settings::Settings;

fn settings(id_length: u32, charset: &str) -> Settings {
    Settings { id_length, charset: charset.to_string(), admin_secret: "s3cret".to_string() }
}

fn always_free(_: &str) -> Result<u64, String> {
    Ok(0)
}

#[test]
fn candidates_have_the_configured_length_and_alphabet() {
    let charset: Vec<char> = "abcXYZ019_é".chars().collect();
    let mut rng = rand::thread_rng();
    for id_length in [1u32, 2, 7, 40] {
        for _ in 0..50 {
            let candidate = generate_candidate(&charset, id_length, &mut rng);
            assert_eq!(candidate.chars().count(), id_length as usize);
            assert!(candidate.chars().all(|c| charset.contains(&c)));
        }
    }
}

#[test]
fn candidate_of_length_zero_is_empty() {
    let charset: Vec<char> = vec!['a'];
    let mut rng = rand::thread_rng();
    assert_eq!(generate_candidate(&charset, 0, &mut rng), "");
}

#[test]
fn candidate_over_one_character_repeats_it() {
    let charset: Vec<char> = vec!['q'];
    let mut rng = rand::thread_rng();
    assert_eq!(generate_candidate(&charset, 5, &mut rng), "qqqqq");
}

#[test]
fn candidates_vary() {
    let charset: Vec<char> = "ABCDEFGHIJKLMNOPQRSTUVWXYZ".chars().collect();
    let mut rng = rand::thread_rng();
    let mut seen = HashSet::new();
    for _ in 0..20 {
        seen.insert(generate_candidate(&charset, 16, &mut rng));
    }
    assert!(seen.len() > 1);
}

#[test]
fn numeric_filter_accepts_digits_only() {
    assert!(is_all_numeric("0"));
    assert!(is_all_numeric("0123456789"));
    assert!(is_all_numeric(""));
    assert!(!is_all_numeric("12a4"));
    assert!(!is_all_numeric("a"));
    assert!(!is_all_numeric("12 "));
    assert!(!is_all_numeric("-1"));
    assert!(!is_all_numeric("\u{0661}\u{0662}"));
    assert!(!is_all_numeric("\u{ff11}"));
    assert!(!is_all_numeric("/"));
    assert!(!is_all_numeric(":"));
}

#[test]
fn a_store_holds_an_identifier_if_it_holds_a_row() {
    assert!(!id_exists(0));
    assert!(id_exists(1));
    assert!(id_exists(2));
    assert!(id_exists(u64::MAX));
}

#[test]
fn allocation_over_ab_stays_within_the_sixteen_strings() {
    let settings = settings(4, "AB");
    let mut seen = HashSet::new();
    for _ in 0..400 {
        let id = generate_id(always_free, &settings).unwrap();
        assert_eq!(id.len(), 4);
        assert!(id.chars().all(|c| c == 'A' || c == 'B'));
        seen.insert(id);
    }
    assert!(seen.len() <= 16);
    assert!(seen.len() > 1);
}

#[test]
fn allocation_never_issues_a_numeric_identifier() {
    let settings = settings(1, "0123456789Z");
    for _ in 0..200 {
        match generate_id(always_free, &settings) {
            Ok(id) => assert_eq!(id, "Z"),
            Err(e) => assert_eq!(e, AllocationError::Exhausted { attempts: 100 }),
        }
    }
    let mixed = self::settings(3, "12x");
    for _ in 0..200 {
        if let Ok(id) = generate_id(always_free, &mixed) {
            assert!(id.contains('x'));
        }
    }
}

#[test]
fn numeric_candidates_are_not_asked_about() {
    let settings = settings(2, "01a");
    for _ in 0..100 {
        let asked = RefCell::new(Vec::new());
        let _ = generate_id(
            |id: &str| -> Result<u64, String> {
                asked.borrow_mut().push(id.to_string());
                Ok(0)
            },
            &settings,
        );
        for id in asked.borrow().iter() {
            assert!(!id.chars().all(|c| c.is_ascii_digit()));
        }
    }
}

#[test]
fn the_issued_identifier_was_reported_free() {
    let taken: HashSet<String> =
        ["AA", "AB", "BA"].iter().map(|s| s.to_string()).collect();
    let settings = settings(2, "AB");
    for _ in 0..100 {
        let last = RefCell::new(None);
        let result = generate_id(
            |id: &str| -> Result<u64, String> {
                let rows = if taken.contains(id) { 1 } else { 0 };
                *last.borrow_mut() = Some((id.to_string(), rows));
                Ok(rows)
            },
            &settings,
        );
        match result {
            Ok(id) => {
                assert_eq!(id, "BB");
                assert_eq!(*last.borrow(), Some(("BB".to_string(), 0)));
            },
            Err(e) => assert_eq!(e, AllocationError::Exhausted { attempts: 100 }),
        }
    }
}

#[test]
fn digits_only_alphabet_exhausts_without_asking_the_store() {
    let settings = settings(1, "01");
    let asked = Cell::new(0u32);
    let result = generate_id(
        |_: &str| -> Result<u64, String> {
            asked.set(asked.get() + 1);
            Ok(0)
        },
        &settings,
    );
    assert_eq!(result, Err(AllocationError::Exhausted { attempts: 100 }));
    assert_eq!(asked.get(), 0);
}

#[test]
fn zero_length_exhausts() {
    let settings = settings(0, "abc");
    assert_eq!(
        generate_id(always_free, &settings),
        Err(AllocationError::Exhausted { attempts: 100 })
    );
}

#[test]
fn full_store_exhausts_after_one_hundred_questions() {
    let settings = settings(3, "xyz");
    let asked = Cell::new(0u32);
    let result = generate_id(
        |_: &str| -> Result<u64, String> {
            asked.set(asked.get() + 1);
            Ok(1)
        },
        &settings,
    );
    assert_eq!(result, Err(AllocationError::Exhausted { attempts: MAX_RETRIES }));
    assert_eq!(asked.get(), 100);
    assert_eq!(MAX_RETRIES, 100);
}

#[test]
fn free_store_and_digit_free_alphabet_succeed_at_once() {
    let settings = settings(6, "abcdef");
    let asked = Cell::new(0u32);
    let result = generate_id(
        |_: &str| -> Result<u64, String> {
            asked.set(asked.get() + 1);
            Ok(0)
        },
        &settings,
    );
    assert!(result.is_ok());
    assert_eq!(asked.get(), 1);
}

#[test]
fn empty_alphabet_is_refused() {
    let settings = settings(4, "");
    let asked = Cell::new(0u32);
    let result = generate_id(
        |_: &str| -> Result<u64, String> {
            asked.set(asked.get() + 1);
            Ok(0)
        },
        &settings,
    );
    assert_eq!(result, Err(AllocationError::EmptyCharset));
    assert_eq!(asked.get(), 0);
}

#[test]
fn store_failure_ends_the_allocation() {
    let settings = settings(4, "abc");
    let asked = Cell::new(0u32);
    let result = generate_id(
        |_: &str| -> Result<u64, String> {
            asked.set(asked.get() + 1);
            if asked.get() < 3 { Ok(5) } else { Err("database is locked".to_string()) }
        },
        &settings,
    );
    assert_eq!(result, Err(AllocationError::Store("database is locked".to_string())));
    assert_eq!(asked.get(), 3);
}

#[test]
fn allocation_errors_describe_themselves() {
    let empty: AllocationError<String> = AllocationError::EmptyCharset;
    assert_eq!(empty.message(), Some("Charset is empty".to_string()));
    let exhausted: AllocationError<String> = AllocationError::Exhausted { attempts: 100 };
    assert_eq!(
        exhausted.message(),
        Some(
            "Failed to generate unique ID after 100 attempts. Database may be very full."
                .to_string()
        )
    );
    let store: AllocationError<String> = AllocationError::Store("locked".to_string());
    assert_eq!(store.message(), None);
}

#[test]
fn allocation_starts_with_the_first_attempt() {
    assert_eq!(AllocationState::start(), AllocationState::Attempting(1));
}

#[test]
fn numeric_candidate_fails_the_attempt() {
    assert_eq!(
        AllocationState::Attempting(1).propose("0042".to_string()),
        AllocationState::Attempting(2)
    );
    assert_eq!(
        AllocationState::Attempting(99).propose("7".to_string()),
        AllocationState::Attempting(100)
    );
    assert_eq!(
        AllocationState::Attempting(100).propose("7".to_string()),
        AllocationState::Exhausted
    );
}

#[test]
fn other_candidate_waits_for_the_store() {
    assert_eq!(
        AllocationState::Attempting(3).propose("00A2".to_string()),
        AllocationState::Checking(3, "00A2".to_string())
    );
    assert_eq!(
        AllocationState::Attempting(100).propose("zz".to_string()),
        AllocationState::Checking(100, "zz".to_string())
    );
}

#[test]
fn taken_candidate_fails_the_attempt() {
    assert_eq!(
        AllocationState::Checking(3, "abc".to_string()).resolve(true),
        AllocationState::Attempting(4)
    );
    assert_eq!(
        AllocationState::Checking(100, "abc".to_string()).resolve(true),
        AllocationState::Exhausted
    );
}

#[test]
fn free_candidate_is_issued() {
    assert_eq!(
        AllocationState::Checking(3, "abc".to_string()).resolve(false),
        AllocationState::Success("abc".to_string())
    );
    assert_eq!(
        AllocationState::Checking(100, "abc".to_string()).resolve(false),
        AllocationState::Success("abc".to_string())
    );
}

#[test]
fn events_out_of_turn_change_nothing() {
    assert_eq!(AllocationState::Attempting(5).resolve(false), AllocationState::Attempting(5));
    assert_eq!(AllocationState::Attempting(5).resolve(true), AllocationState::Attempting(5));
    assert_eq!(
        AllocationState::Checking(5, "ab".to_string()).propose("cd".to_string()),
        AllocationState::Checking(5, "ab".to_string())
    );
    assert_eq!(
        AllocationState::Success("ab".to_string()).propose("cd".to_string()),
        AllocationState::Success("ab".to_string())
    );
    assert_eq!(
        AllocationState::Success("ab".to_string()).resolve(true),
        AllocationState::Success("ab".to_string())
    );
    assert_eq!(AllocationState::Exhausted.propose("cd".to_string()), AllocationState::Exhausted);
    assert_eq!(AllocationState::Exhausted.resolve(false), AllocationState::Exhausted);
}

#[test]
fn one_hundred_failures_exhaust_the_allocation() {
    let mut state = AllocationState::start();
    for attempt in 1..=100u32 {
        assert_eq!(state, AllocationState::Attempting(attempt));
        state = if attempt % 2 == 0 {
            state.propose("123".to_string())
        } else {
            state.propose("abc".to_string()).resolve(true)
        };
    }
    assert_eq!(state, AllocationState::Exhausted);
}
