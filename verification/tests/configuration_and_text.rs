use nebulon_monsters::configuration::Configuration;
use nebulon_monsters::text::{gui_text, level_text, score_text, start_level_text, stars_text, top_score_lines, volume_text};

fn config_with_scores(scores: Vec<i32>) -> Configuration {
    Configuration {
        vsync: false,
        display_index: 1,
        display_mode: 2,
        stars: 30,
        volume: 45,
        levels: vec!["FF".to_string(), "H H".to_string()],
        score_table: scores,
    }
}

#[test]
fn default_configuration() {
    let c = Configuration::default();
    assert!(c.vsync);
    assert_eq!(c.display_index, 0);
    assert_eq!(c.display_mode, 0);
    assert_eq!(c.stars, 300);
    assert_eq!(c.volume, 20);
    assert_eq!(c.levels.len(), 40);
    assert_eq!(c.levels[0], "FFFFFFFFFF FFFFFFFFFF FFFFFFFFFF FFFFFFFFFF FFFFFFFFFF ");
    assert_eq!(c.levels[39], "BSBSBSBSBSBHSHSHSHSHSHHDHDHDHDHDHDDFDFDFDFDDDDDDDDDDDDD");
    assert!(c.levels.iter().all(|l| l.len() == 55));
    assert_eq!(c.score_table, vec![0; 20]);
}

#[test]
fn push_score_keeps_table_sorted() {
    let mut c = config_with_scores(vec![5, 3, 1]);
    c.push_score(4);
    assert_eq!(c.score_table, vec![5, 4, 3, 1]);
    c.push_score(9);
    assert_eq!(c.score_table, vec![9, 5, 4, 3, 1]);
    c.push_score(0);
    assert_eq!(c.score_table, vec![9, 5, 4, 3, 1, 0]);
    assert_eq!(c.volume, 45);
    assert_eq!(c.levels.len(), 2);
}

#[test]
fn push_score_sorts_an_unsorted_table() {
    let mut c = config_with_scores(vec![1, 5, 3]);
    c.push_score(3);
    assert_eq!(c.score_table, vec![5, 3, 3, 1]);
}

#[test]
fn normalize_clamps_and_sorts() {
    let mut c = config_with_scores(vec![-5, 100000, 7, 0, 99999, 12]);
    c.normalize_score_table();
    assert_eq!(c.score_table, vec![99999, 99999, 12, 7, 0, 0]);
}

#[test]
fn config_to_string() {
    let c = config_with_scores(vec![30, -2]);
    let s = c.to_string("0.5");
    assert_eq!(
        s,
        "vsync = false\ndisplay_index = 1\ndisplay_mode = 2\nstars = 30\nvolume = 45\npause_on_hit = 0.5\n\nlevels = [\n\"FF\",\n\"H H\",\n]\n\nscore_table = [30, -2, ]\n\n"
    );
}

#[test]
fn config_to_string_saves_twenty_scores() {
    let c = config_with_scores((1..=25).rev().collect());
    let s = c.to_string("0");
    assert!(s.ends_with("score_table = [25, 24, 23, 22, 21, 20, 19, 18, 17, 16, 15, 14, 13, 12, 11, 10, 9, 8, 7, 6, ]\n\n"));
    let d = Configuration::default();
    let expected_head = "vsync = true\ndisplay_index = 0\ndisplay_mode = 0\nstars = 300\nvolume = 20\npause_on_hit = 0\n\nlevels = [\n\"FFFFFFFFFF FFFFFFFFFF FFFFFFFFFF FFFFFFFFFF FFFFFFFFFF \",\n";
    assert!(d.to_string("0").starts_with(expected_head));
}

#[test]
fn gui_text_layout() {
    assert_eq!(gui_text(3, 42), "Level:03       Score:   42");
    assert_eq!(gui_text(12, 99999), "Level:12       Score:99999");
    assert_eq!(gui_text(0, 0), "Level:00       Score:    0");
}

#[test]
fn texts_match_rust_formatting() {
    for v in [-123456, -100, -5, -1, 0, 1, 7, 9, 10, 42, 99, 100, 999, 1000, 2000, 12345, 99999, 100000, i32::MAX, i32::MIN] {
        assert_eq!(level_text(v), format!("Level:{v:02}"));
        assert_eq!(score_text(v), format!("Score:{v:05}"));
        assert_eq!(volume_text(v), format!("volume:{:>3}%", v));
        assert_eq!(start_level_text(v), format!("level:{:>2}", v));
        assert_eq!(stars_text(v), format!("stars:{:>5}", v));
        assert_eq!(gui_text(v, v), format!("Level:{v:02}       Score:{v:5}"));
    }
}

#[test]
fn settings_texts_keep_their_width() {
    for v in 0..=100 {
        assert_eq!(volume_text(v).len(), "volume:100%".len());
    }
    for v in 0..=2000 {
        assert_eq!(stars_text(v).len(), "stars: 2000".len());
    }
    assert_eq!(volume_text(5), "volume:  5%");
    assert_eq!(stars_text(2000), "stars: 2000");
    assert_eq!(start_level_text(1), "level: 1");
}

#[test]
fn top_score_lines_skip_zeros_and_keep_twenty() {
    assert_eq!(top_score_lines(&vec![500, 0, 20, 0]), vec!["  500".to_string(), "   20".to_string()]);
    let table: Vec<i32> = (1..=25).rev().collect();
    let lines = top_score_lines(&table);
    assert_eq!(lines.len(), 20);
    assert_eq!(lines[0], "   25");
    assert_eq!(lines[19], "    6");
    assert!(top_score_lines(&vec![0; 20]).is_empty());
}
