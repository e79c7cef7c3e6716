//! The verb table: the closed mapping from a verb to the script that
//! carries it out.

use vstd::prelude::*;
use vstd::string::StringExecFns;
use crate::error::{O2Error, O2ErrorView};
use crate::text::{chars_of, text_is};
use crate::token::safe_token;

verus! {

/// The verbs that the table knows.
pub open spec fn known_verb(verb: Seq<char>) -> bool {
    ||| verb == "dev"@
    ||| verb == "dev_strict"@
    ||| verb == "snapshot"@
    ||| verb == "commit"@
    ||| verb == "map"@
    ||| verb == "proofpack"@
    ||| verb == "truth_map"@
}

/// The file name of the script that carries out `verb`, where the table
/// knows the verb.
pub open spec fn script_of(verb: Seq<char>) -> Option<Seq<char>> {
    if verb == "dev"@ {
        Some("o2_dev.sh"@)
    } else if verb == "dev_strict"@ {
        Some("o2_dev_strict.sh"@)
    } else if verb == "snapshot"@ {
        Some("o2_snapshot.sh"@)
    } else if verb == "commit"@ {
        Some("o2_commit.sh"@)
    } else if verb == "map"@ {
        Some("o2_map.sh"@)
    } else if verb == "proofpack"@ {
        Some("o2_proofpack.sh"@)
    } else if verb == "truth_map"@ {
        Some("o2_truth_map.sh"@)
    } else {
        None
    }
}

/// The table has a script for exactly the known verbs.
pub proof fn lemma_script_iff_known(verb: Seq<char>)
    ensures
        script_of(verb) is Some <==> known_verb(verb),
{
}

/// Every known verb is a safe token, so each can be reached through a
/// parsed key.
pub proof fn lemma_known_verb_is_safe(verb: Seq<char>)
    requires
        known_verb(verb),
    ensures
        safe_token(verb),
{
    reveal_strlit("dev");
    reveal_strlit("dev_strict");
    reveal_strlit("snapshot");
    reveal_strlit("commit");
    reveal_strlit("map");
    reveal_strlit("proofpack");
    reveal_strlit("truth_map");
}

/// Looks a verb up in the table.
///
/// Returns the script's file name for a known verb, and for any other verb
/// the failure that names it verbatim.
pub fn verb_to_script(verb: &str) -> (r: Result<&'static str, O2Error>)
    ensures
        r is Ok <==> known_verb(verb@),
        match r {
            Ok(script) => script_of(verb@) == Some(script@),
            Err(e) => script_of(verb@) is None && e@ == (O2ErrorView::UnknownVerb { verb: verb@ }),
        },
{
    let v = chars_of(verb);
    if text_is(&v, "dev") {
        Ok("o2_dev.sh")
    } else if text_is(&v, "dev_strict") {
        Ok("o2_dev_strict.sh")
    } else if text_is(&v, "snapshot") {
        Ok("o2_snapshot.sh")
    } else if text_is(&v, "commit") {
        Ok("o2_commit.sh")
    } else if text_is(&v, "map") {
        Ok("o2_map.sh")
    } else if text_is(&v, "proofpack") {
        Ok("o2_proofpack.sh")
    } else if text_is(&v, "truth_map") {
        Ok("o2_truth_map.sh")
    } else {
        Err(O2Error::UnknownVerb { verb: String::from_str(verb) })
    }
}

} // verus!
