//! The identity of a jar, read off its file name.

use crate::paths::{file_name, path_file_name};
use crate::pattern::{captures, group, group_text, regex_captures};
use crate::text::{ends_with, has_suffix};
use vstd::prelude::*;

verus! {

/// What the file name of a built jar says of it.
#[derive(Debug, PartialEq, Eq)]
pub struct ArtifactId {
    pub name: String,
    pub version: String,
    pub classifier: Option<String>,
}

/// An `ArtifactId` as plain text.
pub struct ArtifactIdView {
    pub name: Seq<char>,
    pub version: Seq<char>,
    pub classifier: Option<Seq<char>>,
}

impl View for ArtifactId {
    type V = ArtifactIdView;

    open spec fn view(&self) -> ArtifactIdView {
        ArtifactIdView {
            name: self.name@,
            version: self.version@,
            classifier: self.classifier.deep_view(),
        }
    }
}

/// The file-name grammar `<name>-<version>[+<build>][-<classifier>].jar`:
/// group 1 is the name, group 2 the version, group 3 the classifier.
pub const ID_PATTERN: &'static str = r#"(.+?)-([\d.]+)(?:\+.+?(?=(?:\.jar)|-))?-?(.*?)\.jar"#;

/// The extension that a file name must end with to be taken for a jar.
pub const JAR_SUFFIX: &'static str = ".jar";

/// A classifier that is empty stands for no classifier.
pub open spec fn classifier_of(found: Option<Seq<char>>) -> Option<Seq<char>> {
    match found {
        Some(c) => if c.len() == 0 {
            None
        } else {
            Some(c)
        },
        None => None,
    }
}

/// The identity that the groups of a match of `ID_PATTERN` stand for. There is
/// none unless both the name and the version took part in the match.
pub open spec fn id_of_groups(groups: Seq<Option<Seq<char>>>) -> Option<ArtifactIdView> {
    match (group(groups, 1), group(groups, 2)) {
        (Some(name), Some(version)) => Some(
            ArtifactIdView { name, version, classifier: classifier_of(group(groups, 3)) },
        ),
        _ => None,
    }
}

/// The identity of the jar at `path`: none where the path has no final
/// component, where that component does not end in `.jar`, or where
/// `ID_PATTERN` does not match it.
pub open spec fn artifact_of(path: Seq<char>) -> Option<ArtifactIdView> {
    match path_file_name(path) {
        None => None,
        Some(name) => if !has_suffix(name, JAR_SUFFIX@) {
            None
        } else {
            match regex_captures(ID_PATTERN@, name) {
                Ok(Some(groups)) => id_of_groups(groups),
                _ => None,
            }
        },
    }
}

/// What the identity of a jar rests on. A path whose file name does not end
/// in `.jar` has no identity. Where the file name does, and `ID_PATTERN`
/// matches in it with a name and a version, the identity holds exactly the
/// name and the version of the match, and its classifier unless that is
/// empty or took no part in the match.
pub proof fn lemma_identity_is_read_off_the_match(
    path: Seq<char>,
    file: Seq<char>,
    groups: Seq<Option<Seq<char>>>,
)
    ensures
        path_file_name(path) is None ==> artifact_of(path) is None,
        path_file_name(path) == Some(file) && !has_suffix(file, JAR_SUFFIX@) ==> artifact_of(path)
            is None,
        path_file_name(path) == Some(file) && has_suffix(file, JAR_SUFFIX@) && regex_captures(
            ID_PATTERN@,
            file,
        ) == Ok::<Option<Seq<Option<Seq<char>>>>, ()>(Some(groups)) && groups.len() == 4
            && groups[1] is Some && groups[2] is Some ==> artifact_of(path) == Some(
            ArtifactIdView {
                name: groups[1]->Some_0,
                version: groups[2]->Some_0,
                classifier: if groups[3] is Some && groups[3]->Some_0.len() > 0 {
                    groups[3]
                } else {
                    None
                },
            },
        ),
{
}

/// Reads name, version and classifier off the groups of a match of
/// `ID_PATTERN`.
pub fn from_captures(groups: &Vec<Option<String>>) -> (id: Option<ArtifactId>)
    ensures
        match id {
            Some(found) => id_of_groups(groups.deep_view()) == Some(found@),
            None => id_of_groups(groups.deep_view()) is None,
        },
{
    let name = group_text(groups, 1);
    let version = group_text(groups, 2);
    match (name, version) {
        (Some(name), Some(version)) => {
            let classifier = match group_text(groups, 3) {
                Some(c) => if c.as_str().unicode_len() == 0 {
                    None
                } else {
                    Some(c)
                },
                None => None,
            };
            Some(ArtifactId { name, version, classifier })
        },
        _ => None,
    }
}

/// Takes the file name of `path` apart into name, version and classifier.
pub fn parse(path: &str) -> (id: Option<ArtifactId>)
    ensures
        match id {
            Some(found) => artifact_of(path@) == Some(found@),
            None => artifact_of(path@) is None,
        },
        id matches Some(found) ==> found@.classifier != Some(Seq::<char>::empty()),
{
    let name = match file_name(path) {
        Some(name) => name,
        None => {
            return None;
        },
    };
    if !ends_with(name.as_str(), JAR_SUFFIX) {
        return None;
    }
    match captures(ID_PATTERN, name.as_str()) {
        Ok(Some(groups)) => from_captures(&groups),
        _ => None,
    }
}

} // verus!
