use nxbd::ignore::{merge_ignore_maps, parse_ignore_string, IgnoreMap, ParseIgnoreError};

#[test]
fn test_parse_ignore_string() {
    // Test parsing a single group and check
    let result = parse_ignore_string("group1.check1").unwrap();
    assert_eq!(result.len(), 1);
    assert_eq!(result.get("group1").unwrap().len(), 1);
    assert_eq!(result.get("group1").unwrap()[0], "check1");

    // Test parsing a group with wildcard
    let result = parse_ignore_string("group2.*").unwrap();
    assert_eq!(result.len(), 1);
    assert_eq!(result.get("group2").unwrap().len(), 0);

    // Test parsing multiple entries
    let result = parse_ignore_string("group1.check1,group2.*,group3.check3").unwrap();
    assert_eq!(result.len(), 3);
    assert_eq!(result.get("group1").unwrap().len(), 1);
    assert_eq!(result.get("group1").unwrap()[0], "check1");
    assert_eq!(result.get("group2").unwrap().len(), 0);
    assert_eq!(result.get("group3").unwrap().len(), 1);
    assert_eq!(result.get("group3").unwrap()[0], "check3");

    // Test parsing multiple checks in the same group
    let result = parse_ignore_string("group1.check1,group1.check2").unwrap();
    assert_eq!(result.len(), 1);
    assert_eq!(result.get("group1").unwrap().len(), 2);
    assert!(result
        .get("group1")
        .unwrap()
        .contains(&"check1".to_string()));
    assert!(result
        .get("group1")
        .unwrap()
        .contains(&"check2".to_string()));

    // Test parsing with spaces
    let result = parse_ignore_string(" group1.check1 , group2.* ").unwrap();
    assert_eq!(result.len(), 2);
    assert_eq!(result.get("group1").unwrap().len(), 1);
    assert_eq!(result.get("group2").unwrap().len(), 0);

    // Test parsing with empty input
    let result = parse_ignore_string("").unwrap();
    assert_eq!(result.len(), 0);

    // Test parsing with extra commas (should be ignored)
    let result = parse_ignore_string("group1.check1,,group2.*,").unwrap();
    assert_eq!(result.len(), 2);

    // Test error cases
    assert!(matches!(
        parse_ignore_string("invalid"),
        Err(ParseIgnoreError::NoGroup(_))
    ));
    assert!(matches!(
        parse_ignore_string(".check1"),
        Err(ParseIgnoreError::EmptyGroup(_))
    ));
    assert!(matches!(
        parse_ignore_string("group1."),
        Err(ParseIgnoreError::EmptyCheck(_))
    ));
}

#[test]
fn test_merge_ignore_maps() {
    // Test case 1: Non-overlapping groups
    let map1 = parse_ignore_string("group1.check1").unwrap();
    let map2 = parse_ignore_string("group2.check2").unwrap();
    let merged = merge_ignore_maps(&map1, &map2);

    assert_eq!(merged.len(), 2);
    assert_eq!(merged.get("group1").unwrap().len(), 1);
    assert_eq!(merged.get("group1").unwrap()[0], "check1");
    assert_eq!(merged.get("group2").unwrap().len(), 1);
    assert_eq!(merged.get("group2").unwrap()[0], "check2");

    // Test case 2: Overlapping groups with specific checks
    let map1 = parse_ignore_string("group1.check1,group2.check2").unwrap();
    let map2 = parse_ignore_string("group1.check3,group3.check4").unwrap();
    let merged = merge_ignore_maps(&map1, &map2);

    assert_eq!(merged.len(), 3);
    assert_eq!(merged.get("group1").unwrap().len(), 2);
    assert!(merged
        .get("group1")
        .unwrap()
        .contains(&"check1".to_string()));
    assert!(merged
        .get("group1")
        .unwrap()
        .contains(&"check3".to_string()));
    assert_eq!(merged.get("group2").unwrap().len(), 1);
    assert_eq!(merged.get("group2").unwrap()[0], "check2");
    assert_eq!(merged.get("group3").unwrap().len(), 1);
    assert_eq!(merged.get("group3").unwrap()[0], "check4");

    // Test case 3: Duplicate checks in the same group
    let map1 = parse_ignore_string("group1.check1,group1.check2").unwrap();
    let map2 = parse_ignore_string("group1.check2,group1.check3").unwrap();
    let merged = merge_ignore_maps(&map1, &map2);

    assert_eq!(merged.len(), 1);
    assert_eq!(merged.get("group1").unwrap().len(), 3);
    assert!(merged
        .get("group1")
        .unwrap()
        .contains(&"check1".to_string()));
    assert!(merged
        .get("group1")
        .unwrap()
        .contains(&"check2".to_string()));
    assert!(merged
        .get("group1")
        .unwrap()
        .contains(&"check3".to_string()));

    // Test case 4: Empty vector in first map (ignore all checks in group)
    let map1 = parse_ignore_string("group1.*,group2.check1").unwrap();
    let map2 = parse_ignore_string("group1.check2,group3.check3").unwrap();
    let merged = merge_ignore_maps(&map1, &map2);

    assert_eq!(merged.len(), 3);
    assert_eq!(
        merged.get("group1").unwrap().len(),
        0,
        "Empty vector should be preserved"
    );
    assert_eq!(merged.get("group2").unwrap().len(), 1);
    assert_eq!(merged.get("group3").unwrap().len(), 1);

    // Test case 5: Empty vector in second map (ignore all checks in group)
    let map1 = parse_ignore_string("group1.check1,group2.check2").unwrap();
    let map2 = parse_ignore_string("group1.*,group3.check3").unwrap();
    let merged = merge_ignore_maps(&map1, &map2);

    assert_eq!(merged.len(), 3);
    assert_eq!(
        merged.get("group1").unwrap().len(),
        0,
        "Empty vector from map2 should be preferred"
    );
    assert_eq!(merged.get("group2").unwrap().len(), 1);
    assert_eq!(merged.get("group3").unwrap().len(), 1);

    // Test case 6: Empty maps
    let map1 = parse_ignore_string("").unwrap();
    let map2 = parse_ignore_string("").unwrap();
    let merged = merge_ignore_maps(&map1, &map2);

    assert_eq!(merged.len(), 0);

    // Test case 7: One empty map, one with content
    let map1 = parse_ignore_string("").unwrap();
    let map2 = parse_ignore_string("group1.check1").unwrap();
    let merged = merge_ignore_maps(&map1, &map2);

    assert_eq!(merged.len(), 1);
    assert_eq!(merged.get("group1").unwrap().len(), 1);
}

// The merge is commutative and idempotent up to the order of the lists: the
// same groups get the same suppressed check sets either way round.
#[test]
fn test_merge_commutative_on_values() {
    let a = parse_ignore_string("g1.c1,g2.*,g3.c3").unwrap();
    let b = parse_ignore_string("g1.c2,g2.c9,g4.c4").unwrap();
    let ab = merge_ignore_maps(&a, &b);
    let ba = merge_ignore_maps(&b, &a);
    for g in ["g1", "g2", "g3", "g4"] {
        let mut x: Vec<String> = ab.get(g).unwrap().clone();
        let mut y: Vec<String> = ba.get(g).unwrap().clone();
        x.sort();
        y.sort();
        assert_eq!(x, y, "group {} differs between merge orders", g);
    }
    assert_eq!(ab.len(), ba.len());
}

#[test]
fn test_merge_idempotent_on_values() {
    let a = parse_ignore_string("g1.c1,g1.c2,g2.*").unwrap();
    let aa = merge_ignore_maps(&a, &a);
    assert_eq!(aa.len(), a.len());
    assert_eq!(aa.get("g1").unwrap(), a.get("g1").unwrap());
    assert_eq!(aa.get("g2").unwrap(), a.get("g2").unwrap());
}

#[test]
fn test_merge_associative_on_values() {
    let a = parse_ignore_string("g1.c1,g2.*").unwrap();
    let b = parse_ignore_string("g1.c2,g3.c3").unwrap();
    let c = parse_ignore_string("g1.c3,g2.c1,g4.*").unwrap();
    let left = merge_ignore_maps(&merge_ignore_maps(&a, &b), &c);
    let right = merge_ignore_maps(&a, &merge_ignore_maps(&b, &c));
    assert_eq!(left.len(), right.len());
    for g in ["g1", "g2", "g3", "g4"] {
        let mut x: Vec<String> = left.get(g).unwrap().clone();
        let mut y: Vec<String> = right.get(g).unwrap().clone();
        x.sort();
        y.sort();
        assert_eq!(x, y, "group {} differs between groupings", g);
    }
}

// A wildcard on either side wins over an explicit list for the same group.
#[test]
fn test_merge_wildcard_precedence() {
    let mut a = IgnoreMap::new();
    a.insert("g".to_string(), vec![]);
    let mut b = IgnoreMap::new();
    b.insert("g".to_string(), vec!["c1".to_string(), "c2".to_string()]);
    let ab = merge_ignore_maps(&a, &b);
    let ba = merge_ignore_maps(&b, &a);
    assert_eq!(ab.get("g").unwrap().len(), 0);
    assert_eq!(ba.get("g").unwrap().len(), 0);
}

#[test]
fn test_ignore_map_insert_and_lookup() {
    let mut m = IgnoreMap::new();
    assert!(m.is_empty());
    assert_eq!(m.insert("g".to_string(), vec!["c".to_string()]), None);
    assert!(!m.is_empty());
    assert!(m.contains_key("g"));
    assert!(!m.contains_key("h"));
    let old = m.insert("g".to_string(), vec![]);
    assert_eq!(old, Some(vec!["c".to_string()]));
    assert_eq!(m.len(), 1);
    assert_eq!(m.get("g").unwrap().len(), 0);
}

// The trimmed offending item is carried in the error.
#[test]
fn test_parse_error_payloads() {
    match parse_ignore_string("a.b, no-dot-here ,c.d") {
        Err(ParseIgnoreError::NoGroup(item)) => assert_eq!(item, "no-dot-here"),
        other => panic!("expected NoGroup, got {:?}", other),
    }
    match parse_ignore_string(" .x") {
        Err(ParseIgnoreError::EmptyGroup(item)) => assert_eq!(item, ".x"),
        other => panic!("expected EmptyGroup, got {:?}", other),
    }
    match parse_ignore_string("x. ") {
        Err(ParseIgnoreError::EmptyCheck(item)) => assert_eq!(item, "x."),
        other => panic!("expected EmptyCheck, got {:?}", other),
    }
}

// A wildcard always yields the empty check-set for its group, whatever
// explicit items for the same group stand before or after it.
#[test]
fn test_parse_wildcard_ordering() {
    let m = parse_ignore_string("g.c1,g.*").unwrap();
    assert_eq!(m.get("g").unwrap().len(), 0);
    let m = parse_ignore_string("g.*,g.c1").unwrap();
    assert_eq!(m.get("g").unwrap().len(), 0);
    let m = parse_ignore_string("g.c1,g.*,g.c2,h.c3").unwrap();
    assert_eq!(m.get("g").unwrap().len(), 0);
    assert_eq!(m.get("h").unwrap(), &vec!["c3".to_string()]);
}
