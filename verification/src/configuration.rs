use vstd::prelude::*;
use vstd::string::StringExecFns;
use crate::constants::{SCORE_MAX, TOP_SCORE_COUNT};
use crate::scores::{clamp_score, clamp_scores, sort_desc, sorted_desc};
use crate::text::{decimal, push_decimal};

verus! {

/// `true` or `false`, as `format!("{}", b)` writes a boolean.
pub open spec fn bool_text(b: bool) -> Seq<char> {
    if b {
        "true"@
    } else {
        "false"@
    }
}

/// The lines of the `levels` array of a configuration file: each level
/// string quoted, followed by a comma and a line break.
pub open spec fn levels_text(levels: Seq<Seq<char>>) -> Seq<char>
    decreases levels.len(),
{
    if levels.len() == 0 {
        Seq::empty()
    } else {
        levels_text(levels.drop_last()) + "\""@ + levels.last() + "\",\n"@
    }
}

/// The entries of the `score_table` array of a configuration file: each
/// score in decimal followed by a comma and a space.
pub open spec fn scores_text(scores: Seq<i32>) -> Seq<char>
    decreases scores.len(),
{
    if scores.len() == 0 {
        Seq::empty()
    } else {
        scores_text(scores.drop_last()) + decimal(scores.last() as int) + ", "@
    }
}

/// The scores that are saved: the first `TOP_SCORE_COUNT` of the table.
pub open spec fn saved_scores(scores: Seq<i32>) -> Seq<i32> {
    if scores.len() <= TOP_SCORE_COUNT {
        scores
    } else {
        scores.take(TOP_SCORE_COUNT as int)
    }
}

/// The text of a configuration file for `c`, with `pause_on_hit` the text
/// of the pause setting.
pub open spec fn config_text(c: Configuration, pause_on_hit: Seq<char>) -> Seq<char> {
    "vsync = "@ + bool_text(c.vsync)
        + "\ndisplay_index = "@ + decimal(c.display_index as int)
        + "\ndisplay_mode = "@ + decimal(c.display_mode as int)
        + "\nstars = "@ + decimal(c.stars as int)
        + "\nvolume = "@ + decimal(c.volume as int)
        + "\npause_on_hit = "@ + pause_on_hit + "\n\n"@
        + "levels = [\n"@ + levels_text(c.levels@.map_values(|l: String| l@)) + "]\n\n"@
        + "score_table = ["@ + scores_text(saved_scores(c.score_table@)) + "]\n\n"@
}

/// The level strings of the default configuration, in order.
pub open spec fn default_levels() -> Seq<Seq<char>> {
    seq![
        "FFFFFFFFFF FFFFFFFFFF FFFFFFFFFF FFFFFFFFFF FFFFFFFFFF "@,
        "FFFFFFFFFFFFFFFFFFFFFFFFFFFFFFFFFFFFFFFFFFFFFFFFFFFFFFF"@,
        "HHHHHHHHHH FFFFFFFFFF FFFFFFFFFF FFFFFFFFFF FFFFFFFFFF "@,
        "HHHHHHHHHHHFFFFFFFFFFFFFFFFFFFFFFFFFFFFFFFFFFFFFFFFFFFF"@,
        "HHHHHHHHHHHHHHHHHHHHHHFFFFFFFFFFFFFFFFFFFFFFFFFFFFFFFFF"@,
        "HHHHHHHHHHHHHHHHHHHHHHHHHHHHHHHHHFFFFFFFFFFFFFFFFFFFFFF"@,
        "HFHFHFHFHFHFHFHFHFHFHFHFHFHFHFHFHFHFHFHFHFHFHFHFHFHFHFH"@,
        "FFFFFFFFFFFFHHHHHHHHHFFHHHHHHHHHFFHHHHHHHHHFFFFFFFFFFFF"@,
        "HHHHHHHHHHHHHHHHHHHHHHHHHHHHHHHHHHHHHHHHHHHHHHHHHHHHHHH"@,
        "HHHHHHHHHHHHHHHHHHHHHHHDHDHDHDHDHFFFFFFFFFFFFFFFFFFFFFF"@,
        "HHHHHHHHHHHHHHHHHHHHHHDDDDDDDDDDDFFFFFFFFFFFFFFFFFFFFFF"@,
        "HHHHHHHHHHHHHHHHHHHHHHHHHHHHHHHHHDDDDDDDDDDDFFFFFFFFFFF"@,
        "HHHHHHHHHHHHHHHHHHHHHHHDHDHDHDHDHDFDFDFDFDFDFFFFFFFFFFF"@,
        "HHHHHHHHHHHHHHHHHHHHHHHFHFHFHFHFHFHFHFHFHFHFDDDDDDDDDDD"@,
        "HHHHHHHHHHHHHHHHHHHHHHHHHHHHHHHHHDFFFFFFFFFDDDDDDDDDDDD"@,
        "HHHHHHHHHHHHHHHHHHHHHHHHHHHHHHHHHFDFDFDFDFDFDDDDDDDDDDD"@,
        "HHHHHHHHHHHHHHHHHHHHHHDHHHHHHHHHDDFFFFFFFFFDDDDDDDDDDDD"@,
        "DHHHHHHHHHDDHHHHHHHHHDDHHHHHHHHHDDFFFFFFFFFDDFFFFFFFFFD"@,
        "BHBHBHBHBHBHHHHHHHHHHHHHHHHHHHHHHFFFFFFFFFFFFFFFFFFFFFF"@,
        "BBBBBBBBBBBHHHHHHHHHHHHFHFHFHFHFHFFFFFFFFFFFFFFFFFFFFFF"@,
        "BBBBBBBBBBBHHHHHHHHHHHHHHHHHHHHHHHHHHHHHHHHHFFFFFFFFFFF"@,
        "BBBBBBBBBBBHHHHHHHHHHHHHHHHHHHHHHHFHFHFHFHFHDFDFDFDFDFD"@,
        "BBBBBBBBBBBHHHHHHHHHHHHHHHHHHHHHHFDFDFDFDFDFDFDFDFDFDFD"@,
        "BBBBBBBBBBBHHHHHHHHHHHHHHHHHHHHHHFHFHFHFHFHFDDDDDDDDDDD"@,
        "HHHHHHHHHHHHHHHBBBHHHHHHHHBBBHHHHFFFFBBBFFFFDDDDDDDDDDD"@,
        "HHHBBBBBHHHHHHBBBBBHHHFFFBBBBBFFFFFFFFFFFFFFFFFDDDDDFFF"@,
        "FDFDBBBDFDFDFDFBBBFDFDFDFDBBBDFDFDFDFDFDFDFDFDFDFDFDFDF"@,
        "BBBBBBBBBBBHHHHHHHHHHHDHHHHHHHHHDDFFFFFFFFFDDDDDDDDDDDD"@,
        "DBBBBBBBBBDDHHHHHHHHHDDHHHHHHHHHDDFFFFFFFFFDDFFFFFFFFFD"@,
        "BBBBBBBBBBBHSHSHSHSHSHHHHHHHHHHHHFFFFFFFFFFFDDDDDDDDDDD"@,
        "BBBBBBBBBBBSSSSSSSSSSSHHHHHHHHHHHFFFFFFFFFFFDDDDDDDDDDD"@,
        "BBBBBBBBBBBSSSSSSSSSSSHSHSHSHSHSHHHHHHHHHHHHDDDDDDDDDDD"@,
        "BBBBBBBBBBBHSHSHSHSHSHHSHSHSHSHSHFDFDFDFDFDFFFFFFFFFFFF"@,
        "HBHBHBHBHBHHSHSHSHSHSHHDHDHDHDHDHFDFDFDFDFDFHFHFHFHFHFH"@,
        "BBBBBBBBBBBBHBHBHBHBHBSSSSSSSSSSSDFDFDFDFDFDDDDDDDDDDDD"@,
        "SBSBSBSBSBSDFDFDFDFDFDBSBSBSBSBSBFDFDFDFDFDFDDDDDDDDDDD"@,
        "HSHSHSHSHSHHSHSHSHSHSHHSHSHSHSHSHFDFDFDFDFDFFDFDFDFDFDF"@,
        "BSBSBSBSBSBHSHSHSHSHSHHSHSHSHSHSHFDFDFDFDFDFFDFDFDFDFDF"@,
        "HSHSHSHSHSHHSHSHSHSHSHHDHDHDHDHDHFDFDFDFDFDFFDFDFDFDFDF"@,
        "BSBSBSBSBSBHSHSHSHSHSHHDHDHDHDHDHDDFDFDFDFDDDDDDDDDDDDD"@
    ]
}

/// The default level strings.
fn default_level_strings() -> (levels: Vec<String>)
    ensures
        levels@.map_values(|l: String| l@) == default_levels(),
{
    let mut levels: Vec<String> = Vec::new();
    levels.push("FFFFFFFFFF FFFFFFFFFF FFFFFFFFFF FFFFFFFFFF FFFFFFFFFF ".to_owned());
    levels.push("FFFFFFFFFFFFFFFFFFFFFFFFFFFFFFFFFFFFFFFFFFFFFFFFFFFFFFF".to_owned());
    levels.push("HHHHHHHHHH FFFFFFFFFF FFFFFFFFFF FFFFFFFFFF FFFFFFFFFF ".to_owned());
    levels.push("HHHHHHHHHHHFFFFFFFFFFFFFFFFFFFFFFFFFFFFFFFFFFFFFFFFFFFF".to_owned());
    levels.push("HHHHHHHHHHHHHHHHHHHHHHFFFFFFFFFFFFFFFFFFFFFFFFFFFFFFFFF".to_owned());
    levels.push("HHHHHHHHHHHHHHHHHHHHHHHHHHHHHHHHHFFFFFFFFFFFFFFFFFFFFFF".to_owned());
    levels.push("HFHFHFHFHFHFHFHFHFHFHFHFHFHFHFHFHFHFHFHFHFHFHFHFHFHFHFH".to_owned());
    levels.push("FFFFFFFFFFFFHHHHHHHHHFFHHHHHHHHHFFHHHHHHHHHFFFFFFFFFFFF".to_owned());
    levels.push("HHHHHHHHHHHHHHHHHHHHHHHHHHHHHHHHHHHHHHHHHHHHHHHHHHHHHHH".to_owned());
    levels.push("HHHHHHHHHHHHHHHHHHHHHHHDHDHDHDHDHFFFFFFFFFFFFFFFFFFFFFF".to_owned());
    levels.push("HHHHHHHHHHHHHHHHHHHHHHDDDDDDDDDDDFFFFFFFFFFFFFFFFFFFFFF".to_owned());
    levels.push("HHHHHHHHHHHHHHHHHHHHHHHHHHHHHHHHHDDDDDDDDDDDFFFFFFFFFFF".to_owned());
    levels.push("HHHHHHHHHHHHHHHHHHHHHHHDHDHDHDHDHDFDFDFDFDFDFFFFFFFFFFF".to_owned());
    levels.push("HHHHHHHHHHHHHHHHHHHHHHHFHFHFHFHFHFHFHFHFHFHFDDDDDDDDDDD".to_owned());
    levels.push("HHHHHHHHHHHHHHHHHHHHHHHHHHHHHHHHHDFFFFFFFFFDDDDDDDDDDDD".to_owned());
    levels.push("HHHHHHHHHHHHHHHHHHHHHHHHHHHHHHHHHFDFDFDFDFDFDDDDDDDDDDD".to_owned());
    levels.push("HHHHHHHHHHHHHHHHHHHHHHDHHHHHHHHHDDFFFFFFFFFDDDDDDDDDDDD".to_owned());
    levels.push("DHHHHHHHHHDDHHHHHHHHHDDHHHHHHHHHDDFFFFFFFFFDDFFFFFFFFFD".to_owned());
    levels.push("BHBHBHBHBHBHHHHHHHHHHHHHHHHHHHHHHFFFFFFFFFFFFFFFFFFFFFF".to_owned());
    levels.push("BBBBBBBBBBBHHHHHHHHHHHHFHFHFHFHFHFFFFFFFFFFFFFFFFFFFFFF".to_owned());
    levels.push("BBBBBBBBBBBHHHHHHHHHHHHHHHHHHHHHHHHHHHHHHHHHFFFFFFFFFFF".to_owned());
    levels.push("BBBBBBBBBBBHHHHHHHHHHHHHHHHHHHHHHHFHFHFHFHFHDFDFDFDFDFD".to_owned());
    levels.push("BBBBBBBBBBBHHHHHHHHHHHHHHHHHHHHHHFDFDFDFDFDFDFDFDFDFDFD".to_owned());
    levels.push("BBBBBBBBBBBHHHHHHHHHHHHHHHHHHHHHHFHFHFHFHFHFDDDDDDDDDDD".to_owned());
    levels.push("HHHHHHHHHHHHHHHBBBHHHHHHHHBBBHHHHFFFFBBBFFFFDDDDDDDDDDD".to_owned());
    levels.push("HHHBBBBBHHHHHHBBBBBHHHFFFBBBBBFFFFFFFFFFFFFFFFFDDDDDFFF".to_owned());
    levels.push("FDFDBBBDFDFDFDFBBBFDFDFDFDBBBDFDFDFDFDFDFDFDFDFDFDFDFDF".to_owned());
    levels.push("BBBBBBBBBBBHHHHHHHHHHHDHHHHHHHHHDDFFFFFFFFFDDDDDDDDDDDD".to_owned());
    levels.push("DBBBBBBBBBDDHHHHHHHHHDDHHHHHHHHHDDFFFFFFFFFDDFFFFFFFFFD".to_owned());
    levels.push("BBBBBBBBBBBHSHSHSHSHSHHHHHHHHHHHHFFFFFFFFFFFDDDDDDDDDDD".to_owned());
    levels.push("BBBBBBBBBBBSSSSSSSSSSSHHHHHHHHHHHFFFFFFFFFFFDDDDDDDDDDD".to_owned());
    levels.push("BBBBBBBBBBBSSSSSSSSSSSHSHSHSHSHSHHHHHHHHHHHHDDDDDDDDDDD".to_owned());
    levels.push("BBBBBBBBBBBHSHSHSHSHSHHSHSHSHSHSHFDFDFDFDFDFFFFFFFFFFFF".to_owned());
    levels.push("HBHBHBHBHBHHSHSHSHSHSHHDHDHDHDHDHFDFDFDFDFDFHFHFHFHFHFH".to_owned());
    levels.push("BBBBBBBBBBBBHBHBHBHBHBSSSSSSSSSSSDFDFDFDFDFDDDDDDDDDDDD".to_owned());
    levels.push("SBSBSBSBSBSDFDFDFDFDFDBSBSBSBSBSBFDFDFDFDFDFDDDDDDDDDDD".to_owned());
    levels.push("HSHSHSHSHSHHSHSHSHSHSHHSHSHSHSHSHFDFDFDFDFDFFDFDFDFDFDF".to_owned());
    levels.push("BSBSBSBSBSBHSHSHSHSHSHHSHSHSHSHSHFDFDFDFDFDFFDFDFDFDFDF".to_owned());
    levels.push("HSHSHSHSHSHHSHSHSHSHSHHDHDHDHDHDHFDFDFDFDFDFFDFDFDFDFDF".to_owned());
    levels.push("BSBSBSBSBSBHSHSHSHSHSHHDHDHDHDHDHDDFDFDFDFDDDDDDDDDDDDD".to_owned());
    assert(levels@.map_values(|l: String| l@) =~= default_levels());
    levels
}

/// Configuration (settings) of the game. The pause after a hit is a
/// floating-point setting and is kept beside this value by the application.
pub struct Configuration {
    pub vsync: bool,
    pub display_index: i32,
    pub display_mode: i32,
    pub stars: i32,
    pub volume: i32,
    pub levels: Vec<String>,
    pub score_table: Vec<i32>,
}

impl Configuration {
    /// The configuration used when no configuration file is found: vsync on,
    /// the first display and mode, 300 stars, volume 20, the built-in levels
    /// and a score table of zeros.
    pub fn default() -> (c: Configuration)
        ensures
            c.vsync,
            c.display_index == 0,
            c.display_mode == 0,
            c.stars == 300,
            c.volume == 20,
            c.levels@.map_values(|l: String| l@) == default_levels(),
            c.score_table@ == Seq::new(TOP_SCORE_COUNT as nat, |_i: int| 0i32),
    {
        let levels = default_level_strings();
        let mut score_table: Vec<i32> = Vec::new();
        let mut i: usize = 0;
        while i < TOP_SCORE_COUNT
            invariant
                i <= TOP_SCORE_COUNT,
                score_table@ == Seq::new(i as nat, |_i: int| 0i32),
            decreases TOP_SCORE_COUNT - i,
        {
            score_table.push(0);
            i = i + 1;
            assert(score_table@ =~= Seq::new(i as nat, |_i: int| 0i32));
        }
        Configuration {
            vsync: true,
            display_index: 0,
            display_mode: 0,
            stars: 300,
            volume: 20,
            levels,
            score_table,
        }
    }
}

impl Configuration {
    /// Adds a score to the table and sorts the table in descending order.
    pub fn push_score(&mut self, score: i32)
        ensures
            sorted_desc(final(self).score_table@),
            final(self).score_table@.to_multiset() == old(self).score_table@.to_multiset().insert(score),
            final(self).score_table@.len() == old(self).score_table@.len() + 1,
            final(self).vsync == old(self).vsync,
            final(self).display_index == old(self).display_index,
            final(self).display_mode == old(self).display_mode,
            final(self).stars == old(self).stars,
            final(self).volume == old(self).volume,
            final(self).levels == old(self).levels,
    {
        broadcast use vstd::seq_lib::group_to_multiset_ensures;
        self.score_table.push(score);
        sort_desc(&mut self.score_table);
    }

    /// Limits every score of the table to `0 ..= SCORE_MAX` and sorts the
    /// table in descending order, as a configuration read from a file is
    /// prepared.
    pub fn normalize_score_table(&mut self)
        ensures
            sorted_desc(final(self).score_table@),
            final(self).score_table@.to_multiset()
                == old(self).score_table@.map_values(|x: i32| clamp_score(x)).to_multiset(),
            forall|i: int| 0 <= i < final(self).score_table@.len()
                ==> 0 <= #[trigger] final(self).score_table@[i] <= SCORE_MAX,
            final(self).vsync == old(self).vsync,
            final(self).display_index == old(self).display_index,
            final(self).display_mode == old(self).display_mode,
            final(self).stars == old(self).stars,
            final(self).volume == old(self).volume,
            final(self).levels == old(self).levels,
    {
        broadcast use vstd::seq_lib::group_to_multiset_ensures;
        clamp_scores(&mut self.score_table);
        let ghost clamped = self.score_table@;
        assert forall|x: i32| clamped.contains(x) implies 0 <= x <= SCORE_MAX by {
            let k = choose|k: int| 0 <= k < clamped.len() && clamped[k] == x;
            assert(clamped[k] == clamp_score(old(self).score_table@[k]));
        }
        sort_desc(&mut self.score_table);
        assert forall|i: int| 0 <= i < self.score_table@.len()
            implies 0 <= #[trigger] self.score_table@[i] <= SCORE_MAX by {
            let x = self.score_table@[i];
            assert(self.score_table@.to_multiset().count(x) > 0);
            assert(clamped.to_multiset().count(x) > 0);
            assert(clamped.contains(x));
        }
    }

    /// Serializes the configuration into the text of a configuration file;
    /// `pause_on_hit` is the text of the pause setting. Only the first
    /// `TOP_SCORE_COUNT` scores are written.
    pub fn to_string(&self, pause_on_hit: &str) -> (s: String)
        ensures
            s@ == config_text(*self, pause_on_hit@),
    {
        let mut s = String::new();
        s.append("vsync = ");
        if self.vsync {
            s.append("true");
        } else {
            s.append("false");
        }
        s.append("\ndisplay_index = ");
        push_decimal(&mut s, self.display_index);
        s.append("\ndisplay_mode = ");
        push_decimal(&mut s, self.display_mode);
        s.append("\nstars = ");
        push_decimal(&mut s, self.stars);
        s.append("\nvolume = ");
        push_decimal(&mut s, self.volume);
        s.append("\npause_on_hit = ");
        s.append(pause_on_hit);
        s.append("\n\n");
        let ghost head = s@;
        s.append("levels = [\n");
        let ghost before_levels = s@;
        let ghost levels = self.levels@.map_values(|l: String| l@);
        let n = self.levels.len();
        let mut i: usize = 0;
        while i < n
            invariant
                n == self.levels@.len(),
                levels == self.levels@.map_values(|l: String| l@),
                i <= n,
                s@ == before_levels + levels_text(levels.take(i as int)),
            decreases n - i,
        {
            s.append("\"");
            s.append(self.levels[i].as_str());
            s.append("\",\n");
            assert(levels.take(i as int + 1).drop_last() =~= levels.take(i as int));
            assert(levels.take(i as int + 1).last() == self.levels@[i as int]@);
            i = i + 1;
        }
        assert(levels.take(n as int) =~= levels);
        s.append("]\n\n");
        s.append("score_table = [");
        let ghost before_scores = s@;
        let m: usize = if self.score_table.len() <= TOP_SCORE_COUNT {
            self.score_table.len()
        } else {
            TOP_SCORE_COUNT
        };
        let ghost saved = saved_scores(self.score_table@);
        assert(saved.len() == m);
        let mut j: usize = 0;
        while j < m
            invariant
                m == saved.len(),
                saved == saved_scores(self.score_table@),
                m <= self.score_table@.len(),
                j <= m,
                s@ == before_scores + scores_text(saved.take(j as int)),
            decreases m - j,
        {
            assert(saved[j as int] == self.score_table@[j as int]);
            push_decimal(&mut s, self.score_table[j]);
            s.append(", ");
            assert(saved.take(j as int + 1).drop_last() =~= saved.take(j as int));
            j = j + 1;
        }
        assert(saved.take(m as int) =~= saved);
        s.append("]\n\n");
        assert(s@ =~= config_text(*self, pause_on_hit@));
        s
    }
}

} // verus!
