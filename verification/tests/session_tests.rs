use noirtty::session::session_id_or_fresh;

fn is_uuid_v4(id: &str) -> bool {
    let chars: Vec<char> = id.chars().collect();
    chars.len() == 36
        && chars.iter().enumerate().all(|(i, c)| match i {
            8 | 13 | 18 | 23 => *c == '-',
            14 => *c == '4',
            19 => matches!(c, '8' | '9' | 'a' | 'b'),
            _ => c.is_ascii_digit() || ('a'..='f').contains(c),
        })
}

#[test]
fn requested_identifier_is_kept() {
    assert_eq!(session_id_or_fresh(Some("my tab".to_string())), "my tab");
    assert_eq!(session_id_or_fresh(Some(String::new())), "");
    assert_eq!(session_id_or_fresh(Some("é".repeat(100))), "é".repeat(100));
}

#[test]
fn fresh_identifier_is_a_random_uuid() {
    let mut seen = std::collections::HashSet::new();
    for _ in 0..200 {
        let id = session_id_or_fresh(None);
        assert!(is_uuid_v4(&id), "{}", id);
        assert!(seen.insert(id));
    }
}
