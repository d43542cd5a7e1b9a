fn next(seed: &mut u64) -> u64 {
    *seed ^= *seed << 13;
    *seed ^= *seed >> 7;
    *seed ^= *seed << 17;
    *seed
}

#[test]
fn numbers_are_read_as_the_standard_library_reads_them() {
    let alphabet: Vec<char> = "0123456789+- a".chars().collect();
    let mut seed: u64 = 0x1234567887654321;
    for _ in 0..100000 {
        let len = (next(&mut seed) % 6) as usize;
        let prefix: String =
            (0..len).map(|_| alphabet[(next(&mut seed) % alphabet.len() as u64) as usize]).collect();
        let text = format!("10.0.0.1/{}", prefix);
        let mine = netctl::IpNetwork::parse(&text).ok().map(|n| n.prefix_len);
        let theirs = prefix.parse::<u8>().ok().filter(|p| *p <= 32);
        assert_eq!(mine, theirs, "{}", text);
        let set = netctl::cli::link::SetArgs {
            interface: "e".to_string(),
            property: "mtu".to_string(),
            value: prefix.clone(),
        };
        let mtu = match set.plan() {
            Ok(netctl::manager::LinkAction::SetMtu(m)) => Some(m),
            _ => None,
        };
        assert_eq!(mtu, prefix.parse::<u32>().ok(), "{}", prefix);
        assert_eq!(
            netctl::cli::stats::parse_counter(&prefix),
            prefix.trim().parse::<u64>().unwrap_or(0),
            "{:?}",
            prefix
        );
    }
}
