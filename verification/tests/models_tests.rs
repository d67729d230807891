use pool_fetcher::models::Protocol;

#[test]
fn protocol_labels() {
    assert_eq!(Protocol::UniV3.as_str(), "V3");
    assert_eq!(Protocol::AerodromeV3.as_str(), "Aerodrome-V3");
    assert_eq!(Protocol::UniV2.as_str(), "V2");
    assert_eq!(Protocol::UniV4.as_str(), "V4");
    assert_eq!(Protocol::PancakeV4.as_str(), "Pancake-V4");
}

#[test]
fn protocol_labels_are_distinct() {
    let all = [Protocol::UniV3, Protocol::AerodromeV3, Protocol::UniV2, Protocol::UniV4, Protocol::PancakeV4];
    for a in all {
        for b in all {
            assert_eq!(a == b, a.as_str() == b.as_str());
        }
    }
}
