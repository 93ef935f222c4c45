use tickeys::player::SimpleAudioPlayer;

#[test]
fn plays_round_robin_over_sources() {
    let mut p = SimpleAudioPlayer::new(vec![11, 12, 13]);
    p.load_data(vec![7, 8]);
    assert_eq!(p.play(0), Some((11, 7)));
    assert_eq!(p.play(1), Some((12, 8)));
    assert_eq!(p.play(1), Some((13, 8)));
    assert_eq!(p.play(0), Some((11, 7)));
    let order: Vec<u32> = p.source_ids().iter().copied().collect();
    assert_eq!(order, vec![12, 13, 11]);
}

#[test]
fn full_round_restores_source_order() {
    let mut p = SimpleAudioPlayer::new(vec![1, 2, 3, 4]);
    p.load_data(vec![5]);
    for _ in 0..4 {
        p.play(0);
    }
    let order: Vec<u32> = p.source_ids().iter().copied().collect();
    assert_eq!(order, vec![1, 2, 3, 4]);
}

#[test]
fn missing_sound_changes_nothing() {
    let mut p = SimpleAudioPlayer::new(vec![1, 2]);
    assert_eq!(p.play(0), None);
    p.load_data(vec![5]);
    assert_eq!(p.play(1), None);
    let order: Vec<u32> = p.source_ids().iter().copied().collect();
    assert_eq!(order, vec![1, 2]);
    assert_eq!(p.data_len(), 1);
}

#[test]
fn unload_forgets_sources_and_buffers() {
    let mut p = SimpleAudioPlayer::new(vec![1, 2]);
    p.load_data(vec![5, 6]);
    p.unload_data();
    assert_eq!(p.data_len(), 0);
    assert!(p.source_ids().is_empty());
    assert_eq!(p.play(0), None);
}
