//! Uniform pick of one character from a fetched collection, and the text
//! that presents it with its episodes.
use vstd::prelude::*;
use crate::catalog::{Character, Episode, FetchError};
use crate::text::{decimal, decimal_string};

verus! {

/// Relies on `rand::random_range`: a number drawn uniformly from `0..n` by the
/// thread-local generator, which is seeded from the operating system. The
/// range must not be empty.
#[verifier::external_body]
fn random_below(n: usize) -> (r: usize)
    requires
        n > 0,
    ensures
        r < n,
{
    rand::random_range(0..n)
}

/// The character at `index` of `items`, with its episode count.
pub fn pick_at(items: Vec<Character>, index: usize) -> (r: (Character, usize))
    requires
        index < items@.len(),
    ensures
        r.0 == items@[index as int],
        r.1 == items@[index as int].episode@.len(),
{
    let mut items = items;
    let c = items.swap_remove(index);
    let n = c.episode.len();
    (c, n)
}

/// Picks one character of `items` uniformly at random, with its episode
/// count; an empty collection gives `EmptyCollection`.
pub fn get_random_character(items: Vec<Character>) -> (r: Result<(Character, usize), FetchError>)
    ensures
        items@.len() == 0 <==> r == Err::<(Character, usize), FetchError>(FetchError::EmptyCollection),
        items@.len() > 0 ==> r is Ok,
        r is Err ==> r == Err::<(Character, usize), FetchError>(FetchError::EmptyCollection),
        r is Ok ==> exists|i: int|
            0 <= i < items@.len() && #[trigger] items@[i] == r->Ok_0.0 && r->Ok_0.1
                == items@[i].episode@.len(),
{
    let n = items.len();
    if n == 0 {
        Err(FetchError::EmptyCollection)
    } else {
        let index = random_below(n);
        let r = pick_at(items, index);
        Ok(r)
    }
}

/// Label of an episode: its name and code, as in `Pilot (S01E01)`.
pub open spec fn episode_label_spec(e: Episode) -> Seq<char> {
    e.name@ + " ("@ + e.episode@ + ")"@
}

/// Label of an episode whose record could not be fetched.
pub open spec fn unknown_episode_spec() -> Seq<char> {
    "Unknown episode"@
}

/// Label of an episode: its name and code.
pub fn episode_label(e: &Episode) -> (r: String)
    ensures
        r@ == episode_label_spec(*e),
{
    let mut l = e.name.clone();
    l.append(" (");
    l.append(e.episode.as_str());
    l.append(")");
    l
}

/// Labels for the episodes of a character, one per reference in order, given
/// the record fetched for each or `None` where its fetch failed.
pub fn get_episode_names(resolved: &Vec<Option<Episode>>) -> (r: Vec<String>)
    ensures
        r@.len() == resolved@.len(),
        forall|i: int|
            0 <= i < resolved@.len() ==> #[trigger] r@[i]@ == match resolved@[i] {
                Some(e) => episode_label_spec(e),
                None => unknown_episode_spec(),
            },
{
    let mut out: Vec<String> = Vec::new();
    let mut i: usize = 0;
    while i < resolved.len()
        invariant
            i <= resolved@.len(),
            out@.len() == i,
            forall|j: int|
                0 <= j < i ==> #[trigger] out@[j]@ == match resolved@[j] {
                    Some(e) => episode_label_spec(e),
                    None => unknown_episode_spec(),
                },
        decreases resolved@.len() - i,
    {
        let label = match &resolved[i] {
            Some(e) => episode_label(e),
            None => String::from_str("Unknown episode"),
        };
        out.push(label);
        i = i + 1;
    }
    out
}

/// The numbered list of episode labels, one per line from `1.`.
pub open spec fn numbered_spec(labels: Seq<String>) -> Seq<char>
    decreases labels.len(),
{
    if labels.len() == 0 {
        Seq::empty()
    } else {
        numbered_spec(labels.drop_last()) + decimal(labels.len()) + ". "@ + labels.last()@ + "\n"@
    }
}

/// Word for a number of episodes.
pub open spec fn episode_word_spec(count: nat) -> Seq<char> {
    if count == 1 {
        "episodio"@
    } else {
        "episodios"@
    }
}

/// Text that presents a randomly picked character `c`, who appears in `count`
/// episodes, with the labels of those episodes.
pub open spec fn random_character_message_spec(c: Character, count: nat, labels: Seq<String>) -> Seq<
    char,
> {
    "Personaje aleatorio:\n\nNombre: "@ + c.name@ + "\nEstado: "@ + c.status@ + "\nEspecie: "@
        + c.species@ + "\nTipo: "@ + c.character_type@ + "\nImagen: "@ + c.image@
        + "\nAparece en "@ + decimal(count) + " "@ + episode_word_spec(count) + "\n"@
        + "\nEpisodios:\n"@ + numbered_spec(labels)
}

/// Text that presents a randomly picked character with its episode labels.
pub fn random_character_message(c: &Character, count: usize, labels: &Vec<String>) -> (r: String)
    ensures
        r@ == random_character_message_spec(*c, count as nat, labels@),
{
    let mut m = String::from_str("Personaje aleatorio:\n\nNombre: ");
    m.append(c.name.as_str());
    m.append("\nEstado: ");
    m.append(c.status.as_str());
    m.append("\nEspecie: ");
    m.append(c.species.as_str());
    m.append("\nTipo: ");
    m.append(c.character_type.as_str());
    m.append("\nImagen: ");
    m.append(c.image.as_str());
    m.append("\nAparece en ");
    let n = decimal_string(count);
    m.append(n.as_str());
    m.append(" ");
    if count == 1 {
        m.append("episodio");
    } else {
        m.append("episodios");
    }
    m.append("\n");
    m.append("\nEpisodios:\n");
    let ghost head = m@;
    let mut i: usize = 0;
    while i < labels.len()
        invariant
            i <= labels@.len(),
            m@ == head + numbered_spec(labels@.take(i as int)),
        decreases labels@.len() - i,
    {
        proof {
            assert(labels@.take(i + 1).drop_last() =~= labels@.take(i as int));
        }
        let k = decimal_string(i + 1);
        m.append(k.as_str());
        m.append(". ");
        m.append(labels[i].as_str());
        m.append("\n");
        i = i + 1;
    }
    proof {
        assert(labels@.take(labels@.len() as int) =~= labels@);
    }
    m
}

} // verus!
