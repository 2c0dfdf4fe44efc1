//! The recipes that shut sidecars down, and the catalog that names them.

use crate::text::copy_strings;
use vstd::prelude::*;
use vstd::string::{StrSliceExecFns, StringExecFns};

verus! {

/// How one kind of sidecar is told to stop.
#[derive(Debug)]
pub enum Action {
    /// Send an HTTP request with this method and path to this port of the pod.
    Portforward(String, String, u16),
    /// Run this command in the container.
    Exec(Vec<String>),
}

/// A recipe as a plain value.
pub enum ActionView {
    Portforward(Seq<char>, Seq<char>, u16),
    Exec(Seq<Seq<char>>),
}

impl View for Action {
    type V = ActionView;

    open spec fn view(&self) -> ActionView {
        match self {
            Action::Portforward(method, path, port) => ActionView::Portforward(
                method@,
                path@,
                *port,
            ),
            Action::Exec(command) => ActionView::Exec(command.deep_view()),
        }
    }
}

impl Clone for Action {
    fn clone(&self) -> (copy: Action)
        ensures
            copy@ == self@,
    {
        match self {
            Action::Portforward(method, path, port) => Action::Portforward(
                method.clone(),
                path.clone(),
                *port,
            ),
            Action::Exec(command) => Action::Exec(copy_strings(command)),
        }
    }
}

/// The recipes by container name. Entries are kept in the order in which
/// they were inserted, and a later entry replaces an earlier one of the
/// same name.
#[derive(Debug)]
pub struct Catalog {
    pub entries: Vec<(String, Action)>,
}

/// The mapping that a list of entries stands for.
pub open spec fn catalog_map(entries: Seq<(String, Action)>) -> Map<Seq<char>, ActionView>
    decreases entries.len(),
{
    if entries.len() == 0 {
        Map::empty()
    } else {
        catalog_map(entries.drop_last()).insert(entries.last().0@, entries.last().1@)
    }
}

impl View for Catalog {
    type V = Map<Seq<char>, ActionView>;

    open spec fn view(&self) -> Map<Seq<char>, ActionView> {
        catalog_map(self.entries@)
    }
}

/// The last entry of a name decides what the name maps to.
proof fn lemma_last_entry_decides(entries: Seq<(String, Action)>, name: Seq<char>, at: int)
    requires
        0 <= at < entries.len(),
        entries[at].0@ == name,
        forall|later: int| at < later < entries.len() ==> entries[later].0@ != name,
    ensures
        catalog_map(entries).contains_key(name),
        catalog_map(entries)[name] == entries[at].1@,
    decreases entries.len(),
{
    if at < entries.len() - 1 {
        lemma_last_entry_decides(entries.drop_last(), name, at);
    }
}

/// A name that no entry carries maps to nothing.
proof fn lemma_no_entry_no_recipe(entries: Seq<(String, Action)>, name: Seq<char>)
    requires
        forall|at: int| 0 <= at < entries.len() ==> entries[at].0@ != name,
    ensures
        !catalog_map(entries).contains_key(name),
    decreases entries.len(),
{
    if entries.len() > 0 {
        lemma_no_entry_no_recipe(entries.drop_last(), name);
    }
}

impl Clone for Catalog {
    fn clone(&self) -> (copy: Catalog)
        ensures
            copy@ == self@,
    {
        let mut copy = Catalog::new();
        let mut index: usize = 0;
        proof {
            assert(self.entries@.take(0) =~= Seq::empty());
        }
        while index < self.entries.len()
            invariant
                index <= self.entries.len(),
                copy@ == catalog_map(self.entries@.take(index as int)),
            decreases self.entries.len() - index,
        {
            proof {
                assert(self.entries@.take(index as int + 1).drop_last() =~= self.entries@.take(
                    index as int,
                ));
            }
            copy.insert(self.entries[index].0.clone(), self.entries[index].1.clone());
            index += 1;
        }
        proof {
            assert(self.entries@.take(index as int) =~= self.entries@);
        }
        copy
    }
}

impl Catalog {
    /// A catalog without recipes.
    pub fn new() -> (catalog: Catalog)
        ensures
            catalog@ == Map::<Seq<char>, ActionView>::empty(),
    {
        Catalog { entries: Vec::new() }
    }

    /// Sets the recipe for a container name, in place of any earlier one.
    pub fn insert(&mut self, name: String, action: Action)
        ensures
            final(self)@ == old(self)@.insert(name@, action@),
    {
        let ghost before = self.entries@;
        self.entries.push((name, action));
        assert(self.entries@.drop_last() =~= before);
    }

    /// The recipe for a container name, if the catalog has one.
    pub fn get(&self, name: &String) -> (found: Option<&Action>)
        ensures
            match found {
                Some(action) => self@.contains_key(name@) && self@[name@] == action@,
                None => !self@.contains_key(name@),
            },
    {
        let mut index: usize = self.entries.len();
        while index > 0
            invariant
                index <= self.entries.len(),
                forall|later: int|
                    index <= later < self.entries.len() ==> self.entries@[later].0@ != name@,
            decreases index,
        {
            index -= 1;
            if self.entries[index].0 == *name {
                proof {
                    lemma_last_entry_decides(self.entries@, name@, index as int);
                }
                return Some(&self.entries[index].1);
            }
        }
        proof {
            lemma_no_entry_no_recipe(self.entries@, name@);
        }
        None
    }
}

/// The characters that separate the words of a command: space, tab, line
/// feed, form feed and carriage return.
pub open spec fn is_blank(c: char) -> bool {
    c == ' ' || c == '\t' || c == '\n' || c == '\u{c}' || c == '\r'
}

/// The words of a text: its maximal runs of characters that are not blank,
/// from left to right. A character that follows a blank, or stands first,
/// starts a word; one that follows a character of a word goes on with it.
pub open spec fn words(text: Seq<char>) -> Seq<Seq<char>>
    decreases text.len(),
{
    if text.len() == 0 {
        Seq::empty()
    } else {
        let before = words(text.drop_last());
        if is_blank(text.last()) {
            before
        } else if text.len() >= 2 && !is_blank(text[text.len() - 2]) && before.len() > 0 {
            before.drop_last().push(before.last().push(text.last()))
        } else {
            before.push(seq![text.last()])
        }
    }
}

/// A run of characters that is not empty and holds no blank.
pub open spec fn is_word(run: Seq<char>) -> bool {
    run.len() > 0 && forall|at: int| 0 <= at < run.len() ==> !is_blank(#[trigger] run[at])
}

/// No word is empty, and no word holds a blank.
pub proof fn lemma_words_hold_no_blank(text: Seq<char>)
    ensures
        forall|at: int| 0 <= at < words(text).len() ==> is_word(#[trigger] words(text)[at]),
    decreases text.len(),
{
    if text.len() > 0 {
        lemma_words_hold_no_blank(text.drop_last());
        let before = words(text.drop_last());
        let found = words(text);
        if !is_blank(text.last()) {
            assert forall|at: int| 0 <= at < found.len() implies is_word(#[trigger] found[at]) by {
                if at < found.len() - 1 {
                    assert(found[at] == before[at]);
                } else if text.len() >= 2 && !is_blank(text[text.len() - 2]) && before.len() > 0 {
                    assert(is_word(before.last()));
                    assert(found[at] == before.last().push(text.last()));
                } else {
                    assert(found[at] == seq![text.last()]);
                }
            }
        }
    }
}

/// A text without a blank is a single word, and a text of blanks has none.
pub proof fn lemma_words_of_plain_text(text: Seq<char>)
    ensures
        is_word(text) ==> words(text) == seq![text],
        (forall|at: int| 0 <= at < text.len() ==> is_blank(#[trigger] text[at])) ==> words(text)
            == Seq::<Seq<char>>::empty(),
    decreases text.len(),
{
    if text.len() > 0 {
        let front = text.drop_last();
        lemma_words_of_plain_text(front);
        if is_word(text) {
            assert forall|at: int| 0 <= at < front.len() implies !is_blank(
                #[trigger] front[at],
            ) by {
                assert(front[at] == text[at]);
            }
            if front.len() > 0 {
                assert(front.push(text.last()) =~= text);
                assert(text[text.len() - 2] == front[front.len() - 1]);
                assert(seq![front].drop_last() =~= Seq::<Seq<char>>::empty());
                assert(seq![front].last() == front);
                assert(Seq::<Seq<char>>::empty().push(text) =~= seq![text]);
            } else {
                assert(seq![text.last()] =~= text);
            }
        }
        if forall|at: int| 0 <= at < text.len() ==> is_blank(#[trigger] text[at]) {
            assert forall|at: int| 0 <= at < front.len() implies is_blank(
                #[trigger] front[at],
            ) by {
                assert(front[at] == text[at]);
            }
        }
    }
}

fn blank(c: char) -> (answer: bool)
    ensures
        answer == is_blank(c),
{
    c == ' ' || c == '\t' || c == '\n' || c == '\u{c}' || c == '\r'
}

/// Splits a command line into its words.
pub fn split_command(command: &str) -> (argv: Vec<String>)
    ensures
        argv.deep_view() == words(command@),
{
    let length = command.unicode_len();
    let mut argv: Vec<String> = Vec::new();
    let mut start: usize = 0;
    let mut in_word = false;
    let mut index: usize = 0;
    proof {
        assert(command@.take(0) =~= Seq::empty());
        assert(argv.deep_view() =~= Seq::empty());
    }
    while index < length
        invariant
            index <= length,
            length == command@.len(),
            in_word ==> start < index,
            in_word <==> index > 0 && !is_blank(command@[index - 1]),
            words(command@.take(index as int)) == if in_word {
                argv.deep_view().push(command@.subrange(start as int, index as int))
            } else {
                argv.deep_view()
            },
        decreases length - index,
    {
        let c = command.get_char(index);
        let ghost text = command@.take(index as int + 1);
        let ghost listed = argv.deep_view();
        proof {
            assert(text.drop_last() =~= command@.take(index as int));
            assert(text.last() == c);
            if index > 0 {
                assert(text[text.len() - 2] == command@[index - 1]);
            }
        }
        if blank(c) {
            if in_word {
                argv.push(String::from_str(command.substring_char(start, index)));
                proof {
                    assert(argv.deep_view() =~= listed.push(
                        command@.subrange(start as int, index as int),
                    ));
                }
                in_word = false;
            }
        } else if in_word {
            proof {
                let word = command@.subrange(start as int, index as int);
                assert(listed.push(word).drop_last() =~= listed);
                assert(word.push(c) =~= command@.subrange(start as int, index as int + 1));
            }
        } else {
            proof {
                assert(seq![c] =~= command@.subrange(index as int, index as int + 1));
            }
            start = index;
            in_word = true;
        }
        index += 1;
    }
    proof {
        assert(command@.take(index as int) =~= command@);
    }
    if in_word {
        let ghost listed = argv.deep_view();
        argv.push(String::from_str(command.substring_char(start, length)));
        proof {
            assert(argv.deep_view() =~= listed.push(
                command@.subrange(start as int, length as int),
            ));
        }
    }
    argv
}

/// A character that `hyper` takes as part of the name of an HTTP method:
/// a letter, a digit, or one of a few marks.
pub open spec fn method_char(c: char) -> bool {
    ||| 'a' <= c <= 'z'
    ||| 'A' <= c <= 'Z'
    ||| '0' <= c <= '9'
    ||| c == '!'
    ||| c == '*'
    ||| c == '+'
    ||| c == '-'
    ||| c == '.'
    ||| c == '^'
    ||| c == '_'
    ||| c == '`'
    ||| c == '|'
    ||| c == '~'
}

/// The texts that `hyper` takes as the name of an HTTP method: one or
/// more method characters.
pub open spec fn is_method(text: Seq<char>) -> bool {
    text.len() > 0 && forall|at: int| 0 <= at < text.len() ==> method_char(#[trigger] text[at])
}

/// Whether `hyper` takes a text as a URI.
pub uninterp spec fn uri_accepts(text: Seq<char>) -> bool;

/// `hyper::Method::from_bytes`: whether the text names an HTTP method. It
/// does when it is not empty and holds method characters only.
#[verifier::external_body]
fn names_method(text: &str) -> (answer: bool)
    ensures
        answer == is_method(text@),
{
    hyper::Method::from_bytes(text.as_bytes()).is_ok()
}

/// `hyper::Uri`'s `from_str`: whether the text parses as a URI.
#[verifier::external_body]
fn parses_as_uri(text: &str) -> (answer: bool)
    ensures
        answer == uri_accepts(text@),
{
    text.parse::<hyper::Uri>().is_ok()
}

/// One entry of the catalog as it is configured: the kind of recipe, and
/// the fields that the kind asks for.
#[derive(Debug, Default)]
pub struct CatalogEntry {
    pub kind: String,
    pub command: Option<String>,
    pub method: Option<String>,
    pub path: Option<String>,
    pub port: Option<u16>,
}

/// A configured entry as a plain value.
pub struct CatalogEntryView {
    pub kind: Seq<char>,
    pub command: Option<Seq<char>>,
    pub method: Option<Seq<char>>,
    pub path: Option<Seq<char>>,
    pub port: Option<u16>,
}

impl View for CatalogEntry {
    type V = CatalogEntryView;

    open spec fn view(&self) -> CatalogEntryView {
        CatalogEntryView {
            kind: self.kind@,
            command: match self.command {
                Some(command) => Some(command@),
                None => None,
            },
            method: match self.method {
                Some(method) => Some(method@),
                None => None,
            },
            path: match self.path {
                Some(path) => Some(path@),
                None => None,
            },
            port: self.port,
        }
    }
}

/// What is wrong with a configured entry.
#[derive(Clone, Copy, Debug, PartialEq, Eq, Structural)]
pub enum EntryError {
    /// The kind is neither `exec` nor `portforward`.
    UnknownKind,
    /// An `exec` entry without a command.
    MissingCommand,
    /// An `exec` entry whose command holds no word.
    EmptyCommand,
    /// A `portforward` entry without a method.
    MissingMethod,
    /// A `portforward` entry whose method is no HTTP method.
    InvalidMethod,
    /// A `portforward` entry without a path.
    MissingPath,
    /// A `portforward` entry whose path is no absolute path.
    InvalidPath,
    /// A `portforward` entry without a port.
    MissingPort,
    /// A `portforward` entry with port 0.
    InvalidPort,
}

/// Whether a text is an absolute path, given whether it parses as a URI:
/// it is one if it does and starts with a slash.
pub open spec fn absolute_path(path: Seq<char>, parses: bool) -> bool {
    parses && path.len() > 0 && path[0] == '/'
}

impl CatalogEntryView {
    /// The recipe that the entry configures, or what is wrong with it,
    /// given whether its path parses as a URI.
    ///
    /// An `exec` entry needs a command of at least one word, and runs
    /// those words. A `portforward` entry needs an HTTP method, an absolute
    /// path and a port from 1 to 65535; they are checked in this order.
    pub open spec fn recipe(self, path_parses: bool) -> Result<ActionView, EntryError> {
        if self.kind == "exec"@ {
            match self.command {
                None => Err(EntryError::MissingCommand),
                Some(command) => if words(command).len() == 0 {
                    Err(EntryError::EmptyCommand)
                } else {
                    Ok(ActionView::Exec(words(command)))
                },
            }
        } else if self.kind == "portforward"@ {
            match (self.method, self.path, self.port) {
                (None, _, _) => Err(EntryError::MissingMethod),
                (Some(method), _, _) if !is_method(method) => Err(EntryError::InvalidMethod),
                (Some(_), None, _) => Err(EntryError::MissingPath),
                (Some(_), Some(path), _) if !absolute_path(path, path_parses) => Err(
                    EntryError::InvalidPath,
                ),
                (Some(_), Some(_), None) => Err(EntryError::MissingPort),
                (Some(_), Some(_), Some(port)) if port == 0 => Err(EntryError::InvalidPort),
                (Some(method), Some(path), Some(port)) => Ok(
                    ActionView::Portforward(method, path, port),
                ),
            }
        } else {
            Err(EntryError::UnknownKind)
        }
    }

    /// Whether `hyper` takes the entry's path as a URI; an entry without a
    /// path has none that it could take.
    pub open spec fn path_parses(self) -> bool {
        match self.path {
            Some(path) => uri_accepts(path),
            None => false,
        }
    }
}

/// A recipe or an error as a plain value.
pub open spec fn recipe_view(outcome: Result<Action, EntryError>) -> Result<
    ActionView,
    EntryError,
> {
    match outcome {
        Ok(action) => Ok(action@),
        Err(error) => Err(error),
    }
}

impl CatalogEntry {
    /// Checks the entry and builds its recipe, given whether its path
    /// parses as a URI.
    pub fn action_given(&self, path_parses: bool) -> (outcome: Result<Action, EntryError>)
        ensures
            recipe_view(outcome) == self@.recipe(path_parses),
    {
        let exec_kind = String::from_str("exec");
        let portforward_kind = String::from_str("portforward");
        if self.kind == exec_kind {
            match &self.command {
                None => Err(EntryError::MissingCommand),
                Some(command) => {
                    let argv = split_command(command.as_str());
                    if argv.len() == 0 {
                        Err(EntryError::EmptyCommand)
                    } else {
                        Ok(Action::Exec(argv))
                    }
                },
            }
        } else if self.kind == portforward_kind {
            let method = match &self.method {
                None => { return Err(EntryError::MissingMethod); },
                Some(method) => method,
            };
            if !names_method(method.as_str()) {
                return Err(EntryError::InvalidMethod);
            }
            let path = match &self.path {
                None => { return Err(EntryError::MissingPath); },
                Some(path) => path,
            };
            if !path_parses || path.as_str().unicode_len() == 0 || path.as_str().get_char(0)
                != '/' {
                return Err(EntryError::InvalidPath);
            }
            match self.port {
                None => Err(EntryError::MissingPort),
                Some(port) => if port == 0 {
                    Err(EntryError::InvalidPort)
                } else {
                    Ok(Action::Portforward(method.clone(), path.clone(), port))
                },
            }
        } else {
            Err(EntryError::UnknownKind)
        }
    }

    /// Checks the entry and builds its recipe.
    pub fn action(&self) -> (outcome: Result<Action, EntryError>)
        ensures
            recipe_view(outcome) == self@.recipe(self@.path_parses()),
    {
        let path_parses = match &self.path {
            Some(path) => parses_as_uri(path.as_str()),
            None => false,
        };
        self.action_given(path_parses)
    }
}

/// A `portforward` entry that leaves out its method, its path or its port
/// configures no recipe, and neither does an `exec` entry that leaves out
/// its command.
pub proof fn lemma_entry_needs_its_fields(entry: CatalogEntryView, path_parses: bool)
    requires
        entry.recipe(path_parses).is_ok(),
    ensures
        entry.kind == "exec"@ ==> entry.command.is_some(),
        entry.kind == "portforward"@ ==> entry.method.is_some() && entry.path.is_some()
            && entry.port.is_some(),
        entry.kind == "exec"@ || entry.kind == "portforward"@,
{
    reveal_strlit("exec");
    reveal_strlit("portforward");
    assert("exec"@.len() != "portforward"@.len());
}

/// Why a catalog could not be built: the entry that is wrong, and how.
#[derive(Debug)]
pub struct CatalogError {
    pub name: String,
    pub problem: EntryError,
}

/// The catalog that a list of named entries configures, or the name of
/// the first entry that is wrong and what is wrong with it.
pub open spec fn configured(entries: Seq<(String, CatalogEntry)>) -> Result<
    Map<Seq<char>, ActionView>,
    (Seq<char>, EntryError),
>
    decreases entries.len(),
{
    if entries.len() == 0 {
        Ok(Map::empty())
    } else {
        match configured(entries.drop_last()) {
            Err(error) => Err(error),
            Ok(catalog) => {
                let entry = entries.last().1@;
                match entry.recipe(entry.path_parses()) {
                    Ok(action) => Ok(catalog.insert(entries.last().0@, action)),
                    Err(problem) => Err((entries.last().0@, problem)),
                }
            },
        }
    }
}

impl Catalog {
    /// Builds the catalog that the entries configure. A single entry that
    /// is wrong fails the whole catalog.
    pub fn build(entries: &Vec<(String, CatalogEntry)>) -> (outcome: Result<Catalog, CatalogError>)
        ensures
            match outcome {
                Ok(catalog) => configured(entries@) == Ok::<
                    Map<Seq<char>, ActionView>,
                    (Seq<char>, EntryError),
                >(catalog@),
                Err(error) => configured(entries@) == Err::<
                    Map<Seq<char>, ActionView>,
                    (Seq<char>, EntryError),
                >((error.name@, error.problem)),
            },
    {
        let mut catalog = Catalog::new();
        let mut index: usize = 0;
        proof {
            assert(entries@.take(0) =~= Seq::empty());
        }
        while index < entries.len()
            invariant
                index <= entries.len(),
                configured(entries@.take(index as int)) == Ok::<
                    Map<Seq<char>, ActionView>,
                    (Seq<char>, EntryError),
                >(catalog@),
            decreases entries.len() - index,
        {
            proof {
                assert(entries@.take(index as int + 1).drop_last() =~= entries@.take(
                    index as int,
                ));
            }
            match entries[index].1.action() {
                Ok(action) => {
                    catalog.insert(entries[index].0.clone(), action);
                },
                Err(problem) => {
                    proof {
                        lemma_error_stays(entries@, index as int + 1);
                    }
                    return Err(CatalogError { name: entries[index].0.clone(), problem });
                },
            }
            index += 1;
        }
        proof {
            assert(entries@.take(index as int) =~= entries@);
        }
        Ok(catalog)
    }
}

/// An entry that is wrong fails every list that goes on after it.
proof fn lemma_error_stays(entries: Seq<(String, CatalogEntry)>, upto: int)
    requires
        0 <= upto <= entries.len(),
        configured(entries.take(upto)).is_err(),
    ensures
        configured(entries) == configured(entries.take(upto)),
    decreases entries.len() - upto,
{
    if upto < entries.len() {
        assert(entries.take(upto + 1).drop_last() =~= entries.take(upto));
        lemma_error_stays(entries, upto + 1);
    } else {
        assert(entries.take(upto) =~= entries);
    }
}

/// A single entry that is wrong fails the whole catalog, wherever it
/// stands among the entries. An entry is wrong, among other things, where
/// it is of kind `portforward` and leaves out its method, its path or its
/// port, or is of kind `exec` and leaves out its command.
pub proof fn lemma_wrong_entry_fails_catalog(entries: Seq<(String, CatalogEntry)>, at: int)
    requires
        0 <= at < entries.len(),
        ({
            let entry = entries[at].1@;
            ||| entry.recipe(entry.path_parses()).is_err()
            ||| entry.kind == "portforward"@ && (entry.method.is_none() || entry.path.is_none()
                || entry.port.is_none())
            ||| entry.kind == "exec"@ && entry.command.is_none()
        }),
    ensures
        configured(entries).is_err(),
    decreases entries.len(),
{
    let entry = entries[at].1@;
    if entry.recipe(entry.path_parses()).is_ok() {
        lemma_entry_needs_its_fields(entry, entry.path_parses());
    }
    if at < entries.len() - 1 {
        assert(entries.drop_last()[at] == entries[at]);
        lemma_wrong_entry_fails_catalog(entries.drop_last(), at);
    }
}

/// A catalog is built exactly when every entry is right, and it then
/// maps the name of each entry to a recipe.
pub proof fn lemma_built_catalog_holds_every_entry(entries: Seq<(String, CatalogEntry)>)
    ensures
        configured(entries).is_ok() <==> forall|at: int|
            0 <= at < entries.len() ==> (#[trigger] entries[at]).1@.recipe(
                entries[at].1@.path_parses(),
            ).is_ok(),
        configured(entries).is_ok() ==> forall|at: int|
            0 <= at < entries.len() ==> configured(entries)->Ok_0.contains_key(
                (#[trigger] entries[at]).0@,
            ),
    decreases entries.len(),
{
    if entries.len() > 0 {
        let front = entries.drop_last();
        lemma_built_catalog_holds_every_entry(front);
        assert forall|at: int| 0 <= at < front.len() implies front[at] == entries[at] by {}
        if configured(entries).is_ok() {
            assert forall|at: int| 0 <= at < entries.len() implies (#[trigger] entries[at]).1@.recipe(
                entries[at].1@.path_parses(),
            ).is_ok() && configured(entries)->Ok_0.contains_key(entries[at].0@) by {
                if at < front.len() {
                    assert(front[at] == entries[at]);
                }
            }
        }
        if forall|at: int|
            0 <= at < entries.len() ==> (#[trigger] entries[at]).1@.recipe(
                entries[at].1@.path_parses(),
            ).is_ok() {
            assert forall|at: int| 0 <= at < front.len() implies (#[trigger] front[at]).1@.recipe(
                front[at].1@.path_parses(),
            ).is_ok() by {
                assert(front[at] == entries[at]);
            }
            assert(entries.last() == entries[entries.len() - 1]);
        }
    }
}

/// The recipes that are built in, by container name.
pub open spec fn builtin() -> Map<Seq<char>, ActionView> {
    Map::empty().insert("cloudsql-proxy"@, ActionView::Exec(words("kill -s INT 1"@))).insert(
        "vks-sidecar"@,
        ActionView::Exec(words("/bin/kill -s INT 1"@)),
    ).insert(
        "secure-logs-configmap-reload"@,
        ActionView::Exec(words("/bin/killall configmap-reload"@)),
    ).insert("linkerd-proxy"@, ActionView::Portforward("POST"@, "/shutdown"@, 4191)).insert(
        "secure-logs-fluentd"@,
        ActionView::Portforward("GET"@, "/api/processes.killWorkers"@, 24444),
    )
}

/// The catalog of the sidecars that are known, each with its recipe.
pub fn generate() -> (catalog: Catalog)
    ensures
        catalog@ == builtin(),
{
    let mut catalog = Catalog::new();
    catalog.insert(
        String::from_str("cloudsql-proxy"),
        Action::Exec(split_command("kill -s INT 1")),
    );
    catalog.insert(
        String::from_str("vks-sidecar"),
        Action::Exec(split_command("/bin/kill -s INT 1")),
    );
    catalog.insert(
        String::from_str("secure-logs-configmap-reload"),
        Action::Exec(split_command("/bin/killall configmap-reload")),
    );
    catalog.insert(
        String::from_str("linkerd-proxy"),
        Action::Portforward(String::from_str("POST"), String::from_str("/shutdown"), 4191),
    );
    catalog.insert(
        String::from_str("secure-logs-fluentd"),
        Action::Portforward(
            String::from_str("GET"),
            String::from_str("/api/processes.killWorkers"),
            24444,
        ),
    );
    catalog
}

} // verus!
