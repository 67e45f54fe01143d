use miner_core::hash::{bytes32_eq, hash_meets_target};
use miner_core::search::{find_nonce, search_batch, search_range};
use miner_core::session::Miner;
use rand::Rng;

fn challenge_a() -> [u8; 32] {
    let mut c = [0u8; 32];
    for i in 0..32 {
        c[i] = i as u8;
    }
    c
}

fn pubkey_a() -> [u8; 32] {
    let mut p = [0u8; 32];
    for i in 0..32 {
        p[i] = (7 * i + 3) as u8;
    }
    p
}

#[test]
fn max_difficulty_first_nonce_qualifies() {
    // Under the loosest target every digest qualifies, so the very first
    // nonce tried is returned.
    let difficulty = [0xffu8; 32];
    let r = search_range(&challenge_a(), &pubkey_a(), &difficulty, 0, 10);
    let (h, nonce) = r.expect("the loosest target must accept the first nonce");
    assert_eq!(nonce, 0);
    assert!(hash_meets_target(&h, &difficulty));
}

#[test]
fn max_difficulty_find_nonce_any_thread_count() {
    let difficulty = [0xffu8; 32];
    for threads in [1u64, 2, 4, 16] {
        let r = find_nonce(&challenge_a(), &pubkey_a(), &difficulty, threads);
        let (_, nonce) = r.expect("the loosest target must accept a nonce");
        assert_eq!(nonce, 0);
    }
}

#[test]
fn zero_difficulty_bounded_window_finds_nothing() {
    // The tightest target accepts only the all-zero digest; a bounded window
    // is expected to find nothing.
    let difficulty = [0u8; 32];
    let r = search_range(&challenge_a(), &pubkey_a(), &difficulty, 0, 200);
    assert!(r.is_none());
}

#[test]
fn partition_finds_known_nonce_regardless_of_threads() {
    // Make the target exactly the digest of nonce 0: the engine must return
    // that nonce whatever the thread count.
    let challenge = challenge_a();
    let pubkey = pubkey_a();
    let loose = [0xffu8; 32];
    let (h0, n0) = search_range(&challenge, &pubkey, &loose, 0, 1).unwrap();
    assert_eq!(n0, 0);
    let difficulty = h0;
    for threads in [1u64, 2, 3, 8, 64] {
        let (h, nonce) =
            find_nonce(&challenge, &pubkey, &difficulty, threads).expect("nonce 0 qualifies");
        assert_eq!(nonce, n0);
        assert_eq!(h, h0);
    }
}

#[test]
fn search_results_validate() {
    // Whatever the search returns passes the validator against the same
    // challenge, key and difficulty, over a spread of random difficulties.
    let miner = Miner::new(0, false, vec![pubkey_a()], None, 1);
    let mut rng = rand::thread_rng();
    for round in 0..12 {
        let mut challenge = [0u8; 32];
        let mut pubkey = [0u8; 32];
        let mut difficulty = [0u8; 32];
        rng.fill(&mut challenge[..]);
        rng.fill(&mut pubkey[..]);
        rng.fill(&mut difficulty[..]);
        // Keep the target loose enough that a short window almost surely
        // holds a qualifying nonce.
        difficulty[0] = 0x40u8.saturating_add(round * 8);
        let (h, nonce) = search_range(&challenge, &pubkey, &difficulty, 0, 20_000)
            .expect("a window of thousands of nonces finds a hash under a loose target");
        assert!(miner.validate_hash(h, challenge, pubkey, nonce, difficulty));
        // A different nonce must not validate the same digest.
        assert!(!miner.validate_hash(h, challenge, pubkey, nonce + 1, difficulty));
    }
}

#[test]
fn digest_differs_from_challenge() {
    // The digest is a real hash of the inputs, not any input handed back.
    let challenge = challenge_a();
    let pubkey = pubkey_a();
    let loose = [0xffu8; 32];
    let (h, _) = search_range(&challenge, &pubkey, &loose, 0, 1).unwrap();
    assert!(!bytes32_eq(&h, &challenge));
    assert!(!bytes32_eq(&h, &pubkey));
}

#[test]
fn search_batch_one_result_per_pair() {
    let pairs = vec![(challenge_a(), pubkey_a()), (pubkey_a(), challenge_a())];
    let difficulty = [0xffu8; 32];
    let results = search_batch(&pairs, &difficulty, 4).expect("loosest target");
    assert_eq!(results.len(), 2);
    let miner = Miner::new(0, false, vec![pubkey_a()], None, 1);
    for (i, r) in results.iter().enumerate() {
        assert_eq!(r.challenge, pairs[i].0);
        assert!(miner.validate_hash(r.hash, pairs[i].0, pairs[i].1, r.nonce, difficulty));
    }
}

#[test]
fn meets_target_is_big_endian_order() {
    let mut h = [0u8; 32];
    let mut d = [0u8; 32];
    assert!(hash_meets_target(&h, &d));
    h[31] = 1;
    assert!(!hash_meets_target(&h, &d));
    d[31] = 1;
    assert!(hash_meets_target(&h, &d));
    d[30] = 1;
    assert!(hash_meets_target(&h, &d));
    h[0] = 1;
    assert!(!hash_meets_target(&h, &d));
    d[0] = 1;
    assert!(hash_meets_target(&h, &d));
}
