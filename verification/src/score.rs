use vstd::prelude::*;
use vstd::string::StringExecFns;

verus! {

/// The role a credited person or body played in a score.
#[derive(Clone, Debug)]
pub enum ScoreCreditKey {
    Composer,
    Lyricist,
    Arranger,
    Transcriber,
    Translator,
    Poet,
    Contributor,
    Publisher,
    Other(String),
}

impl ScoreCreditKey {
    /// The printed name of this role; an `Other` role prints its own text.
    pub open spec fn label_spec(self) -> Seq<char> {
        match self {
            Self::Composer => "Composer"@,
            Self::Lyricist => "Lyricist"@,
            Self::Arranger => "Arranger"@,
            Self::Transcriber => "Transcriber"@,
            Self::Translator => "Translator"@,
            Self::Poet => "Poet"@,
            Self::Contributor => "Contributor"@,
            Self::Publisher => "Publisher"@,
            Self::Other(s) => s@,
        }
    }

    /// The role as text.
    pub fn label(&self) -> (r: String)
        ensures
            r@ == self.label_spec(),
    {
        match self {
            Self::Composer => String::from_str("Composer"),
            Self::Lyricist => String::from_str("Lyricist"),
            Self::Arranger => String::from_str("Arranger"),
            Self::Transcriber => String::from_str("Transcriber"),
            Self::Translator => String::from_str("Translator"),
            Self::Poet => String::from_str("Poet"),
            Self::Contributor => String::from_str("Contributor"),
            Self::Publisher => String::from_str("Publisher"),
            Self::Other(s) => String::from_str(s.as_str()),
        }
    }
}

/// A credit attached to a score: one role, one or more names.
///
/// A role with several names holds them all here rather than joining them
/// with commas in one string.
#[derive(Clone, Debug)]
pub struct ScoreCredit {
    pub key: ScoreCreditKey,
    pub value: Vec<String>,
}

/// `parts` joined with `", "` between consecutive elements.
pub open spec fn joined_spec(parts: Seq<Seq<char>>) -> Seq<char>
    decreases parts.len(),
{
    if parts.len() == 0 {
        Seq::empty()
    } else if parts.len() == 1 {
        parts[0]
    } else {
        joined_spec(parts.drop_last()) + ", "@ + parts.last()
    }
}

impl ScoreCredit {
    /// The credit as text: the role, a colon, and the names joined with
    /// commas.
    pub fn text(&self) -> (r: String)
        ensures
            r@ == self.key.label_spec() + ": "@ + joined_spec(
                self.value@.map_values(|s: String| s@),
            ),
    {
        let mut out = self.key.label();
        out.append(": ");
        let n = self.value.len();
        let ghost parts = self.value@.map_values(|s: String| s@);
        let mut i: usize = 0;
        let mut joined = String::new();
        while i < n
            invariant
                i <= n == self.value@.len(),
                parts == self.value@.map_values(|s: String| s@),
                joined@ == joined_spec(parts.take(i as int)),
            decreases n - i,
        {
            if i > 0 {
                joined.append(", ");
            }
            joined.append(self.value[i].as_str());
            proof {
                let t = parts.take(i + 1);
                assert(t.drop_last() =~= parts.take(i as int));
                assert(t.last() == parts[i as int]);
                assert(parts[i as int] == self.value@[i as int]@);
                if i == 0 {
                    assert(joined_spec(parts.take(0)) == Seq::<char>::empty());
                    assert(joined@ =~= joined_spec(t));
                } else {
                    assert(joined@ =~= joined_spec(t));
                }
            }
            i = i + 1;
        }
        proof {
            assert(parts.take(n as int) =~= parts);
        }
        out.append(joined.as_str());
        proof {
            assert(out@ =~= self.key.label_spec() + ": "@ + joined_spec(parts));
        }
        out
    }
}

/// How a score file was produced.
#[derive(Clone, Debug)]
pub struct ScoreEncoding {
    pub software: Option<String>,
    pub encoding_date: Option<String>,
    pub encoder: Option<String>,
}

/// Identification information for a score.
#[derive(Clone, Debug)]
pub struct ScoreIdentification {
    pub creator: Vec<String>,
    pub encoding: ScoreEncoding,
}

} // verus!
