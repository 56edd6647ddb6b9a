use vstd::prelude::*;
use vstd::string::*;
use crate::contribution::Metadata;

verus! {

/// The text without its leading and trailing white space.
pub uninterp spec fn trimmed(s: Seq<char>) -> Seq<char>;

/// Relies on `str::trim`: removes leading and trailing white space; the
/// result depends on the characters alone.
#[verifier::external_body]
fn trim(s: &str) -> (r: String)
    ensures
        r@ == trimmed(s@),
{
    s.trim().to_string()
}

/// Whether `i` is the one position of a colon in `name`.
pub open spec fn sole_colon_at(name: Seq<char>, i: int) -> bool {
    0 <= i < name.len() && name[i] == ':' && forall|j: int|
        0 <= j < name.len() && name[j] == ':' ==> j == i
}

/// A label `key: value` with exactly one colon, as its trimmed key and
/// value; `None` for any other label.
pub open spec fn label_entry(name: Seq<char>) -> Option<(Seq<char>, Seq<char>)> {
    if exists|i: int| sole_colon_at(name, i) {
        let i = choose|i: int| sole_colon_at(name, i);
        Some((trimmed(name.subrange(0, i)), trimmed(name.subrange(i + 1, name.len() as int))))
    } else {
        None
    }
}

/// The value of the last label among `names` whose key is `key`.
pub open spec fn label_value(names: Seq<Seq<char>>, key: Seq<char>) -> Option<Seq<char>>
    decreases names.len(),
{
    if names.len() == 0 {
        None
    } else {
        match label_entry(names.last()) {
            Some((k, v)) if k == key => Some(v),
            _ => label_value(names.drop_last(), key),
        }
    }
}

pub open spec fn text_of(o: Option<String>) -> Option<Seq<char>> {
    match o {
        Some(s) => Some(s@),
        None => None,
    }
}

/// Splits a label at its colon when it has exactly one.
fn split_label(name: &String) -> (r: Option<(String, String)>)
    ensures
        r matches Some((k, v)) ==> label_entry(name@) == Some((k@, v@)),
        r is None ==> label_entry(name@) is None,
{
    let text = name.as_str();
    let n = text.unicode_len();
    let mut colon: Option<usize> = None;
    let mut i: usize = 0;
    while i < n
        invariant
            0 <= i <= n,
            n == name@.len(),
            text@ == name@,
            colon matches Some(c) ==> c < i && name@[c as int] == ':' && forall|j: int|
                0 <= j < i && name@[j] == ':' ==> j == c,
            colon is None ==> forall|j: int| 0 <= j < i ==> name@[j] != ':',
        decreases n - i,
    {
        if text.get_char(i) == ':' {
            if colon.is_some() {
                proof {
                    let c = colon->Some_0 as int;
                    assert(!sole_colon_at(name@, c));
                    assert forall|k: int| !sole_colon_at(name@, k) by {
                        if sole_colon_at(name@, k) {
                            assert(name@[c] == ':');
                            assert(name@[i as int] == ':');
                        }
                    }
                }
                return None;
            }
            colon = Some(i);
        }
        i = i + 1;
    }
    match colon {
        None => {
            proof {
                assert forall|k: int| !sole_colon_at(name@, k) by {}
            }
            None
        },
        Some(c) => {
            proof {
                assert(sole_colon_at(name@, c as int));
                let w = choose|w: int| sole_colon_at(name@, w);
                assert(w == c);
            }
            let key = trim(text.substring_char(0, c));
            let value = trim(text.substring_char(c + 1, n));
            Some((key, value))
        },
    }
}

/// The metadata that the labels of a GitHub issue give, from labels of the
/// form `Key: value`: `Context`, `Difficulty`, `Duration`, `Techno` (the
/// technology) and `Type`. When a key appears twice, the later label wins.
pub fn extract_metadata(labels: &Vec<String>) -> (r: Metadata)
    ensures
        text_of(r.context) == label_value(labels@.map_values(|s: String| s@), "Context"@),
        text_of(r.difficulty) == label_value(labels@.map_values(|s: String| s@), "Difficulty"@),
        text_of(r.duration) == label_value(labels@.map_values(|s: String| s@), "Duration"@),
        text_of(r.technology) == label_value(labels@.map_values(|s: String| s@), "Techno"@),
        text_of(r.kind) == label_value(labels@.map_values(|s: String| s@), "Type"@),
{
    let ghost names = labels@.map_values(|s: String| s@);
    let context_key = String::from_str("Context");
    let difficulty_key = String::from_str("Difficulty");
    let duration_key = String::from_str("Duration");
    let technology_key = String::from_str("Techno");
    let kind_key = String::from_str("Type");
    let mut metadata = Metadata {
        difficulty: None,
        technology: None,
        duration: None,
        context: None,
        kind: None,
    };
    let mut i: usize = 0;
    while i < labels.len()
        invariant
            0 <= i <= labels@.len(),
            names == labels@.map_values(|s: String| s@),
            context_key@ == "Context"@,
            difficulty_key@ == "Difficulty"@,
            duration_key@ == "Duration"@,
            technology_key@ == "Techno"@,
            kind_key@ == "Type"@,
            text_of(metadata.context) == label_value(names.subrange(0, i as int), "Context"@),
            text_of(metadata.difficulty) == label_value(names.subrange(0, i as int), "Difficulty"@),
            text_of(metadata.duration) == label_value(names.subrange(0, i as int), "Duration"@),
            text_of(metadata.technology) == label_value(names.subrange(0, i as int), "Techno"@),
            text_of(metadata.kind) == label_value(names.subrange(0, i as int), "Type"@),
        decreases labels@.len() - i,
    {
        let entry = split_label(&labels[i]);
        proof {
            assert(names.subrange(0, i + 1).drop_last() =~= names.subrange(0, i as int));
            assert(names.subrange(0, i + 1).last() == labels@[i as int]@);
            reveal_strlit("Context");
            reveal_strlit("Difficulty");
            reveal_strlit("Duration");
            reveal_strlit("Techno");
            reveal_strlit("Type");
            // The five keys have five different lengths, hence differ.
            assert("Context"@.len() == 7);
            assert("Difficulty"@.len() == 10);
            assert("Duration"@.len() == 8);
            assert("Techno"@.len() == 6);
            assert("Type"@.len() == 4);
        }
        match entry {
            Some((key, value)) => {
                if key == context_key {
                    metadata.context = Some(value);
                } else if key == difficulty_key {
                    metadata.difficulty = Some(value);
                } else if key == duration_key {
                    metadata.duration = Some(value);
                } else if key == technology_key {
                    metadata.technology = Some(value);
                } else if key == kind_key {
                    metadata.kind = Some(value);
                }
            },
            None => {},
        }
        i = i + 1;
    }
    proof {
        assert(names.subrange(0, labels@.len() as int) =~= names);
    }
    metadata
}

} // verus!
