//! The reply to a search of characters by name.
use vstd::prelude::*;
use crate::catalog::Character;
use crate::text::{decimal, decimal_string};

verus! {

/// Most characters listed in one reply.
pub const MAX_DISPLAYED_CHARACTERS: usize = 20;

/// One listed character: its name in bold and its status.
pub open spec fn entry_spec(c: Character) -> Seq<char> {
    "📌 *"@ + c.name@ + "*\n• Estado: "@ + c.status@ + "\n\n"@
}

/// The entries of `cs`, in order.
pub open spec fn listing_spec(cs: Seq<Character>) -> Seq<char>
    decreases cs.len(),
{
    if cs.len() == 0 {
        Seq::empty()
    } else {
        listing_spec(cs.drop_last()) + entry_spec(cs.last())
    }
}

/// Reply to a search for `query` that found `found`: a not-found notice, or
/// the count, the first characters, and a note when some were left out.
pub open spec fn search_reply_spec(query: Seq<char>, found: Seq<Character>) -> Seq<char> {
    if found.len() == 0 {
        "No se encontraron personajes con el nombre '"@ + query + "'"@
    } else {
        let shown = if found.len() > MAX_DISPLAYED_CHARACTERS {
            MAX_DISPLAYED_CHARACTERS as nat
        } else {
            found.len()
        };
        let head = "Encontrados "@ + decimal(found.len()) + " personajes que coinciden con '"@
            + query + "':\n\n"@ + listing_spec(found.take(shown as int));
        if found.len() > MAX_DISPLAYED_CHARACTERS {
            head + "ℹ️ *Mostrando "@ + decimal(shown) + " de "@ + decimal(found.len())
                + " personajes encontrados*"@
        } else {
            head
        }
    }
}

/// Reply to a search for `name` whose walk over the matching characters
/// returned `found`.
pub fn found_character(name: &str, found: &Vec<Character>) -> (r: String)
    ensures
        r@ == search_reply_spec(name@, found@),
{
    let total = found.len();
    if total == 0 {
        let mut m = String::from_str("No se encontraron personajes con el nombre '");
        m.append(name);
        m.append("'");
        return m;
    }
    let shown = if total > MAX_DISPLAYED_CHARACTERS {
        MAX_DISPLAYED_CHARACTERS
    } else {
        total
    };
    let mut m = String::from_str("Encontrados ");
    let t = decimal_string(total);
    m.append(t.as_str());
    m.append(" personajes que coinciden con '");
    m.append(name);
    m.append("':\n\n");
    let ghost head = m@;
    let mut i: usize = 0;
    while i < shown
        invariant
            shown <= found@.len(),
            i <= shown,
            m@ == head + listing_spec(found@.take(i as int)),
        decreases shown - i,
    {
        proof {
            assert(found@.take(i + 1).drop_last() =~= found@.take(i as int));
        }
        m.append("📌 *");
        m.append(found[i].name.as_str());
        m.append("*\n• Estado: ");
        m.append(found[i].status.as_str());
        m.append("\n\n");
        i = i + 1;
    }
    if total > MAX_DISPLAYED_CHARACTERS {
        m.append("ℹ️ *Mostrando ");
        let s = decimal_string(shown);
        m.append(s.as_str());
        m.append(" de ");
        m.append(t.as_str());
        m.append(" personajes encontrados*");
    }
    m
}

} // verus!
