//! The manifest of an incremental rebuild: which chunks a running client
//! has to fetch again and which it has to drop.
//!
//! The manifest is written as a JSON object with the two keys `c` (the
//! names of the modified chunks) and `r` (the names of the removed chunks),
//! in this order and without white space. Clients read these keys, so they
//! are part of the protocol.

use vstd::prelude::*;

verus! {

broadcast use vstd::string::group_string_axioms;

/// What a rebuild changed.
#[derive(Clone, Debug, PartialEq, Eq)]
pub struct HotUpdateManifest {
    pub modified_chunks: Vec<String>,
    pub removed_chunks: Vec<String>,
}

/// What a manifest is, mathematically.
pub struct ManifestView {
    pub modified_chunks: Seq<Seq<char>>,
    pub removed_chunks: Seq<Seq<char>>,
}

impl View for HotUpdateManifest {
    type V = ManifestView;

    open spec fn view(&self) -> ManifestView {
        ManifestView {
            modified_chunks: self.modified_chunks.deep_view(),
            removed_chunks: self.removed_chunks.deep_view(),
        }
    }
}

/// Why a manifest could not be written down.
#[derive(Clone, Copy, Debug, PartialEq, Eq, Structural)]
pub enum ManifestError {
    /// A chunk name could not be encoded as a JSON string.
    Encoding,
}

#[verifier::external_type_specification]
#[verifier::external_body]
pub struct ExJsonError(serde_json::Error);

/// What `serde_json::to_string` gives for the string slice `text`: the JSON
/// string literal (the text between double quotes, with the characters
/// escaped that JSON does not take as they are), or `None` for an error.
pub uninterp spec fn json_string(text: Seq<char>) -> Option<Seq<char>>;

/// `serde_json::to_string`, applied to a string slice. What it returns
/// depends on `text` alone and is what `json_string` names; nothing is
/// claimed of whether it is a literal or an error.
#[verifier::external_body]
fn encode_json_string(text: &str) -> (encoded: Result<String, serde_json::Error>)
    ensures
        encoded matches Ok(literal) ==> json_string(text@) == Some(literal@),
        encoded is Err ==> json_string(text@) is None,
{
    serde_json::to_string(text)
}

/// The items one after the other, with `separator` between neighbours.
pub open spec fn joined(items: Seq<Seq<char>>, separator: Seq<char>) -> Seq<char>
    decreases items.len(),
{
    if items.len() == 0 {
        Seq::empty()
    } else if items.len() == 1 {
        items[0]
    } else {
        joined(items.drop_last(), separator) + separator + items.last()
    }
}

/// A JSON array in compact form, of elements that are JSON already.
pub open spec fn json_array(elements: Seq<Seq<char>>) -> Seq<char> {
    "["@ + joined(elements, ","@) + "]"@
}

/// The JSON string literal of each text, or `None` if one of them has none.
pub open spec fn json_strings(texts: Seq<Seq<char>>) -> Option<Seq<Seq<char>>> {
    if forall|i: int| 0 <= i < texts.len() ==> (#[trigger] json_string(texts[i])) is Some {
        Some(texts.map_values(|text: Seq<char>| json_string(text)->0))
    } else {
        None
    }
}

/// The manifest object around chunk names that are JSON string literals
/// already.
pub open spec fn manifest_frame(modified: Seq<Seq<char>>, removed: Seq<Seq<char>>) -> Seq<char> {
    "{\"c\":"@ + json_array(modified) + ",\"r\":"@ + json_array(removed) + "}"@
}

/// Appends the JSON array of `elements` to `out`.
fn push_json_array(out: &mut String, elements: &Vec<String>)
    ensures
        final(out)@ == old(out)@ + json_array(elements.deep_view()),
{
    out.append("[");
    let ghost opened = out@;
    let mut i: usize = 0;
    while i < elements.len()
        invariant
            i <= elements.len(),
            out@ == opened + joined(elements.deep_view().take(i as int), ","@),
        decreases elements.len() - i,
    {
        if i > 0 {
            out.append(",");
        }
        out.append(elements[i].as_str());
        proof {
            let items = elements.deep_view();
            assert(items.take(i + 1).drop_last() =~= items.take(i as int));
            assert(items.take(i + 1).last() == elements[i as int]@);
            assert(out@ =~= opened + joined(items.take(i + 1), ","@));
        }
        i += 1;
    }
    assert(elements.deep_view().take(i as int) =~= elements.deep_view());
    out.append("]");
    assert(out@ =~= old(out)@ + json_array(elements.deep_view()));
}

/// The JSON string literal of each of `texts`, in their order. The result
/// is an error exactly if the encoder gives an error for one of them.
fn encode_json_strings(texts: &Vec<String>) -> (encoded: Result<Vec<String>, ManifestError>)
    ensures
        match encoded {
            Ok(literals) => json_strings(texts.deep_view()) == Some(literals.deep_view()),
            Err(error) => json_strings(texts.deep_view()) is None,
        },
{
    let mut literals: Vec<String> = Vec::new();
    let mut i: usize = 0;
    while i < texts.len()
        invariant
            i == literals.len() <= texts.len(),
            forall|j: int|
                0 <= j < i ==> (#[trigger] json_string(texts.deep_view()[j]))
                    == Some(literals.deep_view()[j]),
        decreases texts.len() - i,
    {
        match encode_json_string(texts[i].as_str()) {
            Ok(literal) => {
                literals.push(literal);
            },
            Err(_) => {
                assert(json_string(texts.deep_view()[i as int]) is None);
                return Err(ManifestError::Encoding);
            },
        }
        i += 1;
    }
    assert(json_strings(texts.deep_view())->0 =~= literals.deep_view());
    Ok(literals)
}

impl HotUpdateManifest {
    /// The manifest object for chunk names that are JSON string literals
    /// already: those of the modified chunks under the key `c`, those of
    /// the removed chunks under the key `r`.
    pub fn render(modified: &Vec<String>, removed: &Vec<String>) -> (text: String)
        ensures
            text@ == manifest_frame(modified.deep_view(), removed.deep_view()),
    {
        let mut text = String::new();
        text.append("{\"c\":");
        push_json_array(&mut text, modified);
        text.append(",\"r\":");
        push_json_array(&mut text, removed);
        text.append("}");
        assert(text@ =~= manifest_frame(modified.deep_view(), removed.deep_view()));
        text
    }

    /// The text of the manifest; an error exactly if the encoder gives one for a chunk name.
    pub fn to_json(&self) -> (text: Result<String, ManifestError>)
        ensures
            match text {
                Ok(json) => manifest_json(self@) == Some(json@),
                Err(error) => manifest_json(self@) is None && error == ManifestError::Encoding,
            },
    {
        let modified = match encode_json_strings(&self.modified_chunks) {
            Ok(literals) => literals,
            Err(error) => {
                return Err(error);
            },
        };
        let removed = match encode_json_strings(&self.removed_chunks) {
            Ok(literals) => literals,
            Err(error) => {
                return Err(error);
            },
        };
        Ok(HotUpdateManifest::render(&modified, &removed))
    }
}

/// The text of a manifest: the object with the literals of the modified
/// chunks' names under `c` and those of the removed chunks' names under
/// `r`; `None` if the encoder has no literal for one of the names.
pub open spec fn manifest_json(manifest: ManifestView) -> Option<Seq<char>> {
    match (json_strings(manifest.modified_chunks), json_strings(manifest.removed_chunks)) {
        (Some(modified), Some(removed)) => Some(manifest_frame(modified, removed)),
        _ => None,
    }
}

/// A manifest without names is the object of two empty arrays, whatever
/// the encoder does.
pub proof fn lemma_empty_manifest_has_its_text()
    ensures
        manifest_json(
            ManifestView { modified_chunks: Seq::empty(), removed_chunks: Seq::empty() },
        ) == Some(manifest_frame(Seq::empty(), Seq::empty())),
{
    let none = Seq::<Seq<char>>::empty();
    assert(json_strings(none)->0 =~= none);
}

} // verus!
