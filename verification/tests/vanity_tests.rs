use solana_vanity::encoder::encode;
use solana_vanity::{find_vanity_address, find_vanity_address_with_suffix};

#[test]
fn test_find_vanity_address() {
    // Test finding an address with prefix "A"
    // This should be relatively quick to find
    let prefix = "A";
    let num_threads = 4;

    let result = find_vanity_address(prefix, num_threads);

    // Verify the result
    let pubkey_str = encode(&result.keypair.pubkey);
    assert!(
        pubkey_str.starts_with(prefix),
        "Generated key {} doesn't start with prefix {}",
        pubkey_str,
        prefix
    );

    println!("Found vanity address: {}", pubkey_str);
    println!("Time elapsed: {} ms", result.elapsed_ms);
    println!("Attempts: {}", result.attempts);
}

#[test]
fn test_find_vanity_address_with_suffix() {
    // Test finding an address with suffix "a"
    // This should be relatively quick to find
    let suffix = "a";
    let num_threads = 4;

    let result = find_vanity_address_with_suffix(suffix, num_threads);

    // Verify the result
    let pubkey_str = encode(&result.keypair.pubkey);
    assert!(
        pubkey_str.ends_with(suffix),
        "Generated key {} doesn't end with suffix {}",
        pubkey_str,
        suffix
    );

    println!("Found vanity address: {}", pubkey_str);
    println!("Time elapsed: {} ms", result.elapsed_ms);
    println!("Attempts: {}", result.attempts);
}

#[test]
fn test_performance_comparison() {
    // Test performance with different thread counts
    let prefix = "B";

    // Test with 1 thread
    let start_time = std::time::Instant::now();
    let result1 = find_vanity_address(prefix, 1);
    let single_thread_time = start_time.elapsed();
    assert!(result1.attempts >= 1);

    // Test with multiple threads
    let num_threads = num_cpus::get(); // Use all available CPUs
    let start_time = std::time::Instant::now();
    let result_multi = find_vanity_address(prefix, num_threads);
    let multi_thread_time = start_time.elapsed();
    assert!(result_multi.attempts >= 1);

    println!("Single thread time: {:?}", single_thread_time);
    println!("Multi thread ({} threads) time: {:?}", num_threads, multi_thread_time);
    println!(
        "Speedup factor: {:.2}x",
        single_thread_time.as_secs_f64() / multi_thread_time.as_secs_f64()
    );
}
