//! The credential file: `{ github_authentication: { token: <text> } }`.

use crate::error::ShranError;
use crate::utils::sections::{
    find_first, first_value, lemma_first_value_push, sections_read, text_written, write_sections,
};
use crate::utils::text_map::{
    distinct_keys, lemma_mapped_pairs, mapped_pairs, pairs_map, TextMap,
};
use crate::utils::yaml::{yaml_sections, yaml_text};
use vstd::prelude::*;

verus! {

/// The map that a list of fields denotes; of two fields of one name the
/// first counts.
pub open spec fn fields_map(fields: Seq<(Seq<char>, Seq<char>)>) -> Map<Seq<char>, Seq<char>> {
    Map::new(
        |name: Seq<char>| first_value(fields, name) is Some,
        |name: Seq<char>| first_value(fields, name)->0,
    )
}

/// The token among the fields of a credential, or the empty text.
pub open spec fn token_of(authentication: Map<Seq<char>, Seq<char>>) -> Seq<char> {
    if authentication.contains_key("token"@) {
        authentication["token"@]
    } else {
        Seq::empty()
    }
}

/// The credential that the sections of a credential file describe: the fields
/// of the first section called `github_authentication`, if there is one.
pub open spec fn authentication_of_sections(
    sections: Seq<(Seq<char>, Seq<(Seq<char>, Seq<char>)>)>,
) -> Option<Map<Seq<char>, Seq<char>>> {
    match first_value(sections, "github_authentication"@) {
        Some(fields) => Some(fields_map(fields)),
        None => None,
    }
}

/// Used to read and write github auth information in YAML. Currently only
/// supports a token.
#[derive(Debug)]
pub struct GithubAuth {
    github_authentication: TextMap<String>,
}

impl View for GithubAuth {
    type V = Map<Seq<char>, Seq<char>>;

    open spec fn view(&self) -> Map<Seq<char>, Seq<char>> {
        pairs_map(self.fields())
    }
}

impl GithubAuth {
    /// The fields of the credential in the order in which they are written.
    pub closed spec fn fields(&self) -> Seq<(Seq<char>, Seq<char>)> {
        mapped_pairs(self.github_authentication.pairs(), |text: String| text@)
    }

    /// How the credential stands to the map that holds it.
    proof fn lemma_fields(&self)
        requires
            distinct_keys(self.github_authentication.pairs()),
        ensures
            self@ == self.github_authentication@.map_values(|text: String| text@),
    {
        lemma_mapped_pairs(self.github_authentication.pairs(), |text: String| text@);
    }

    /// Build a credential that holds `token`.
    pub fn new(token: &String) -> (auth: Self)
        ensures
            auth.fields() == seq![("token"@, token@)],
            auth@ == Map::<Seq<char>, Seq<char>>::empty().insert("token"@, token@),
    {
        let mut github_authentication: TextMap<String> = TextMap::new();
        let _ = github_authentication.insert("token".to_owned(), token.clone());
        let auth = Self { github_authentication };
        proof {
            assert(auth.fields() =~= seq![("token"@, token@)]);
            auth.lemma_fields();
            assert(auth@ =~= Map::<Seq<char>, Seq<char>>::empty().insert("token"@, token@));
        }
        auth
    }

    /// The token, or the empty text where the credential holds none.
    pub fn extract_token(&self) -> (token: String)
        ensures
            token@ == token_of(self@),
    {
        let found = self.github_authentication.get("token");
        proof {
            self.lemma_fields();
        }
        if let Some(t) = found {
            return t.clone();
        }
        String::new()
    }

    /// Whether the credential holds a token.
    pub fn has_token(&self) -> (present: bool)
        ensures
            present == self@.contains_key("token"@),
    {
        let present = self.github_authentication.contains_key("token");
        proof {
            self.lemma_fields();
        }
        present
    }

    /// The credential with the given fields; of two fields of one name the
    /// first counts.
    pub fn from_fields(fields: &Vec<(String, String)>) -> (auth: Self)
        ensures
            auth@ == fields_map(fields.deep_view()),
    {
        let ghost all = fields.deep_view();
        let mut github_authentication: TextMap<String> = TextMap::new();
        let mut i: usize = 0;
        assert(all.take(0) =~= Seq::<(Seq<char>, Seq<char>)>::empty());
        assert(github_authentication@.map_values(|text: String| text@) =~= fields_map(all.take(0)));
        while i < fields.len()
            invariant
                i <= fields.len(),
                all == fields.deep_view(),
                distinct_keys(github_authentication.pairs()),
                github_authentication@.map_values(|text: String| text@) == fields_map(
                    all.take(i as int),
                ),
            decreases fields.len() - i,
        {
            let ghost before = github_authentication@;
            let ghost seen = all.take(i as int);
            proof {
                assert(all.take(i as int + 1) =~= seen.push(all[i as int]));
                assert forall|name: Seq<char>| #[trigger]
                    first_value(all.take(i as int + 1), name) == (match first_value(seen, name) {
                        Some(value) => Some(value),
                        None => if all[i as int].0 == name {
                            Some(all[i as int].1)
                        } else {
                            None
                        },
                    }) by {
                    lemma_first_value_push(seen, all[i as int], name);
                }
                assert(before.contains_key(all[i as int].0) == fields_map(seen).contains_key(
                    all[i as int].0,
                ));
            }
            if !github_authentication.contains_key(fields[i].0.as_str()) {
                let name = fields[i].0.clone();
                let text = fields[i].1.clone();
                let _ = github_authentication.insert(name, text);
                assert(all[i as int] == (name@, text@));
                assert(before.insert(name@, text).map_values(|text: String| text@)
                    =~= before.map_values(|text: String| text@).insert(name@, text@));
                assert(fields_map(seen).insert(name@, text@) =~= fields_map(
                    all.take(i as int + 1),
                ));
            } else {
                assert(before.map_values(|text: String| text@) =~= fields_map(
                    all.take(i as int + 1),
                ));
            }
            i += 1;
        }
        assert(all.take(i as int) =~= all);
        let auth = Self { github_authentication };
        proof {
            auth.lemma_fields();
        }
        auth
    }

    /// The credential that the sections of a credential file describe, if a
    /// section called `github_authentication` is among them.
    pub fn from_sections(sections: &Vec<(String, Vec<(String, String)>)>) -> (auth: Option<Self>)
        ensures
            match auth {
                Some(auth) => authentication_of_sections(sections.deep_view()) == Some(auth@),
                None => authentication_of_sections(sections.deep_view()) is None,
            },
    {
        match find_first(sections, "github_authentication") {
            Some(fields) => Some(Self::from_fields(fields)),
            None => None,
        }
    }

    /// The sections under which the credential is written to its file.
    pub fn to_sections(&self) -> (sections: Vec<(String, Vec<(String, String)>)>)
        ensures
            sections.deep_view() == seq![("github_authentication"@, self.fields())],
    {
        let n = self.github_authentication.len();
        let mut fields: Vec<(String, String)> = Vec::new();
        let mut i: usize = 0;
        while i < n
            invariant
                i == fields.len(),
                i <= n,
                n == self.fields().len(),
                forall|j: int| 0 <= j < i ==> #[trigger] fields.deep_view()[j] == self.fields()[j],
            decreases n - i,
        {
            if let Some((name, text)) = self.github_authentication.entry_at(i) {
                let ghost before = fields.deep_view();
                fields.push((name.to_owned(), text.clone()));
                assert forall|j: int| 0 <= j < i + 1 implies #[trigger] fields.deep_view()[j]
                    == self.fields()[j] by {
                    if j < i {
                        assert(fields.deep_view()[j] == before[j]);
                    }
                }
            }
            i += 1;
        }
        assert(fields.deep_view() =~= self.fields());
        let mut sections: Vec<(String, Vec<(String, String)>)> = Vec::new();
        sections.push(("github_authentication".to_owned(), fields));
        assert(sections.deep_view() =~= seq![("github_authentication"@, self.fields())]);
        sections
    }

    /// The text to write to the credential file, or `SerializeError` where it
    /// cannot be written. No text is handed out that would be refused for its
    /// nesting when it is read again.
    pub fn to_yaml(&self) -> (result: Result<String, ShranError>)
        ensures
            match result {
                Ok(text) => text_written(
                    yaml_text(seq![("github_authentication"@, self.fields())]),
                ) == Some(text@) && sections_read(text@) == yaml_sections(text@),
                Err(error) => text_written(
                    yaml_text(seq![("github_authentication"@, self.fields())]),
                ) is None && error is SerializeError,
            },
    {
        write_sections(&self.to_sections())
    }
}

} // verus!
