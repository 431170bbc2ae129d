use platformer::level::GridCoords;
use platformer::player::PlayerAnimation;
use platformer::word::WordTileEventKind;

#[test]
fn animation_lengths_and_durations() {
    assert_eq!(PlayerAnimation::Idle.len(), 5);
    assert_eq!(PlayerAnimation::SwingAnticipation.len(), 3);
    assert_eq!(PlayerAnimation::SwingAnticipationIdle.len(), 4);
    assert_eq!(PlayerAnimation::Swing.len(), 5);
    assert_eq!(PlayerAnimation::SwingFast.len(), 3);

    assert_eq!(PlayerAnimation::Swing.frame_base_duration_ms(0), 90);
    assert_eq!(PlayerAnimation::Swing.frame_base_duration_ms(1), 60);
    assert_eq!(PlayerAnimation::SwingFast.frame_base_duration_ms(0), 80);
    assert_eq!(PlayerAnimation::Idle.frame_base_duration_ms(2), 100);

    assert!(PlayerAnimation::Idle.is_idle());
    assert!(PlayerAnimation::SwingAnticipationIdle.is_idle());
    assert!(!PlayerAnimation::Swing.is_idle());
    assert_eq!(PlayerAnimation::default(), PlayerAnimation::Idle);
}

#[test]
fn word_events_pick_animations() {
    assert_eq!(
        PlayerAnimation::on_word_event(&WordTileEventKind::WordStarted),
        Some(PlayerAnimation::SwingAnticipation)
    );
    assert_eq!(
        PlayerAnimation::on_word_event(&WordTileEventKind::WordFinished(1)),
        Some(PlayerAnimation::Swing)
    );
    assert_eq!(
        PlayerAnimation::on_word_event(&WordTileEventKind::TileFinished {
            word_count: 3,
            coords: GridCoords::new(0, 0),
        }),
        Some(PlayerAnimation::Swing)
    );
    assert_eq!(
        PlayerAnimation::on_word_event(&WordTileEventKind::WordAdvanced),
        None
    );
}

#[test]
fn frames_cycle_and_one_shots_settle() {
    // A swing plays through its five frames and settles into Idle.
    let mut anim = PlayerAnimation::Swing;
    let mut frame = 0;
    for expected in [1, 2, 3, 4] {
        anim.advance_frame(&mut frame);
        assert_eq!(frame, expected);
        assert_eq!(anim, PlayerAnimation::Swing);
    }
    anim.advance_frame(&mut frame);
    assert_eq!(frame, 0);
    assert_eq!(anim, PlayerAnimation::Idle);

    // The wind-up settles into its own idle loop instead.
    let mut anticipation = PlayerAnimation::SwingAnticipation;
    let mut frame = 2;
    anticipation.advance_frame(&mut frame);
    assert_eq!(frame, 0);
    assert_eq!(anticipation, PlayerAnimation::SwingAnticipationIdle);

    // Idle loops forever.
    let mut idle = PlayerAnimation::Idle;
    let mut frame = 4;
    idle.advance_frame(&mut frame);
    assert_eq!(frame, 0);
    assert_eq!(idle, PlayerAnimation::Idle);
}
