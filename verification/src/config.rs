//! The challenge descriptor and the validation of its raw inputs.
use vstd::prelude::*;
use vstd::string::*;

verus! {

/// The closed set of challenge categories.
#[derive(Clone, Copy, Debug, PartialEq, Eq, Structural)]
pub enum ChalType {
    Pwn,
    Reversing,
    Crypto,
    Web,
    Misc,
    Forensics,
    Stego,
}

/// The field that made validation fail.
#[derive(Clone, Copy, Debug, PartialEq, Eq, Structural)]
pub enum ValidationError {
    Name,
    Author,
    Category,
    Directory,
}

/// Everything that one provisioning run depends on.
#[derive(Clone, Debug, PartialEq, Eq)]
pub struct ChalConfig {
    pub name: String,
    pub author: String,
    pub directory: String,
    pub chal_type: ChalType,
    pub docker: bool,
    pub verbose: bool,
}

/// The mathematical value of a [`ChalConfig`].
pub struct ConfigView {
    pub name: Seq<char>,
    pub author: Seq<char>,
    pub directory: Seq<char>,
    pub chal_type: ChalType,
    pub docker: bool,
    pub verbose: bool,
}

impl View for ChalConfig {
    type V = ConfigView;

    open spec fn view(&self) -> ConfigView {
        ConfigView {
            name: self.name@,
            author: self.author@,
            directory: self.directory@,
            chal_type: self.chal_type,
            docker: self.docker,
            verbose: self.verbose,
        }
    }
}

impl ConfigView {
    /// The descriptor's invariant: what `assemble` checks of its text fields.
    pub open spec fn wf(self) -> bool {
        &&& valid_label(self.name)
        &&& valid_label(self.author)
        &&& valid_directory(self.directory)
    }
}

/// A character that separates the components of a path.
pub open spec fn is_separator(c: char) -> bool {
    c == '/' || c == '\\'
}

/// A name or an author: not empty, and a single path component.
pub open spec fn valid_label(s: Seq<char>) -> bool {
    &&& s.len() > 0
    &&& forall|i: int| 0 <= i < s.len() ==> !is_separator(#[trigger] s[i])
}

/// A base directory: not empty, and free of the NUL character.
pub open spec fn valid_directory(s: Seq<char>) -> bool {
    &&& s.len() > 0
    &&& forall|i: int| 0 <= i < s.len() ==> #[trigger] s[i] != '\0'
}

/// The lower-case form of an ASCII letter; any other character is itself.
pub open spec fn lower(c: char) -> char {
    if 'A' <= c && c <= 'Z' {
        ((c as u8) + 32) as char
    } else {
        c
    }
}

/// Two words are the same up to the case of their ASCII letters.
pub open spec fn same_word(a: Seq<char>, b: Seq<char>) -> bool {
    &&& a.len() == b.len()
    &&& forall|i: int| 0 <= i < a.len() ==> lower(#[trigger] a[i]) == lower(b[i])
}

/// The category that a word names, whatever its case.
pub open spec fn category_of(s: Seq<char>) -> Option<ChalType> {
    if same_word(s, "pwn"@) {
        Some(ChalType::Pwn)
    } else if same_word(s, "reversing"@) {
        Some(ChalType::Reversing)
    } else if same_word(s, "crypto"@) {
        Some(ChalType::Crypto)
    } else if same_word(s, "web"@) {
        Some(ChalType::Web)
    } else if same_word(s, "misc"@) {
        Some(ChalType::Misc)
    } else if same_word(s, "forensics"@) {
        Some(ChalType::Forensics)
    } else if same_word(s, "stego"@) {
        Some(ChalType::Stego)
    } else {
        None
    }
}

/// The text of the base directory: the one given, or the current directory.
pub open spec fn directory_text(directory: Option<&str>) -> Seq<char> {
    match directory {
        Some(d) => d@,
        None => "."@,
    }
}

/// What `assemble` returns: the first offending field in the order name,
/// author, category, directory, or the descriptor with every value as given.
pub open spec fn assembled(
    name: Seq<char>,
    author: Seq<char>,
    category: Seq<char>,
    directory: Seq<char>,
    docker: bool,
    verbose: bool,
) -> Result<ConfigView, ValidationError> {
    if !valid_label(name) {
        Err(ValidationError::Name)
    } else if !valid_label(author) {
        Err(ValidationError::Author)
    } else if category_of(category) is None {
        Err(ValidationError::Category)
    } else if !valid_directory(directory) {
        Err(ValidationError::Directory)
    } else {
        Ok(
            ConfigView {
                name,
                author,
                directory,
                chal_type: category_of(category).unwrap(),
                docker,
                verbose,
            },
        )
    }
}

fn to_lower(c: char) -> (r: char)
    ensures
        r == lower(c),
{
    if 'A' <= c && c <= 'Z' {
        let b: u8 = c as u8;
        (b + 32u8) as char
    } else {
        c
    }
}

/// Whether `s` is not empty and holds no path separator.
pub fn is_valid_label(s: &str) -> (r: bool)
    ensures
        r == valid_label(s@),
{
    let n: usize = s.unicode_len();
    if n == 0 {
        return false;
    }
    let mut i: usize = 0;
    while i < n
        invariant
            i <= n,
            n == s@.len(),
            forall|j: int| 0 <= j < i ==> !is_separator(#[trigger] s@[j]),
        decreases n - i,
    {
        let c: char = s.get_char(i);
        if c == '/' || c == '\\' {
            return false;
        }
        i += 1;
    }
    true
}

/// Whether `s` is not empty and holds no NUL character.
pub fn is_valid_directory(s: &str) -> (r: bool)
    ensures
        r == valid_directory(s@),
{
    let n: usize = s.unicode_len();
    if n == 0 {
        return false;
    }
    let mut i: usize = 0;
    while i < n
        invariant
            i <= n,
            n == s@.len(),
            forall|j: int| 0 <= j < i ==> #[trigger] s@[j] != '\0',
        decreases n - i,
    {
        let c: char = s.get_char(i);
        if c == '\0' {
            return false;
        }
        i += 1;
    }
    true
}

/// Whether `a` and `b` differ at most in the case of ASCII letters.
pub fn is_same_word(a: &str, b: &str) -> (r: bool)
    ensures
        r == same_word(a@, b@),
{
    let n: usize = a.unicode_len();
    if n != b.unicode_len() {
        return false;
    }
    let mut i: usize = 0;
    while i < n
        invariant
            i <= n,
            n == a@.len(),
            n == b@.len(),
            forall|j: int| 0 <= j < i ==> lower(#[trigger] a@[j]) == lower(b@[j]),
        decreases n - i,
    {
        if to_lower(a.get_char(i)) != to_lower(b.get_char(i)) {
            return false;
        }
        i += 1;
    }
    true
}

/// Reads a category from its name, in any case.
pub fn parse_chal_type(s: &str) -> (r: Option<ChalType>)
    ensures
        r == category_of(s@),
{
    if is_same_word(s, "pwn") {
        Some(ChalType::Pwn)
    } else if is_same_word(s, "reversing") {
        Some(ChalType::Reversing)
    } else if is_same_word(s, "crypto") {
        Some(ChalType::Crypto)
    } else if is_same_word(s, "web") {
        Some(ChalType::Web)
    } else if is_same_word(s, "misc") {
        Some(ChalType::Misc)
    } else if is_same_word(s, "forensics") {
        Some(ChalType::Forensics)
    } else if is_same_word(s, "stego") {
        Some(ChalType::Stego)
    } else {
        None
    }
}

/// Validates the raw parameters and builds the descriptor. Touches nothing
/// but its arguments: a rejected input has had no effect anywhere.
pub fn assemble(
    name: &str,
    author: &str,
    category: &str,
    directory: Option<&str>,
    docker: bool,
    verbose: bool,
) -> (r: Result<ChalConfig, ValidationError>)
    ensures
        match r {
            Ok(c) => assembled(
                name@,
                author@,
                category@,
                directory_text(directory),
                docker,
                verbose,
            ) == Ok::<ConfigView, ValidationError>(c@) && c@.wf(),
            Err(e) => assembled(
                name@,
                author@,
                category@,
                directory_text(directory),
                docker,
                verbose,
            ) == Err::<ConfigView, ValidationError>(e),
        },
{
    if !is_valid_label(name) {
        return Err(ValidationError::Name);
    }
    if !is_valid_label(author) {
        return Err(ValidationError::Author);
    }
    let chal_type: ChalType = match parse_chal_type(category) {
        Some(t) => t,
        None => {
            return Err(ValidationError::Category);
        },
    };
    let dir: &str = match directory {
        Some(d) => d,
        None => ".",
    };
    if !is_valid_directory(dir) {
        return Err(ValidationError::Directory);
    }
    Ok(
        ChalConfig {
            name: String::from_str(name),
            author: String::from_str(author),
            directory: String::from_str(dir),
            chal_type,
            docker,
            verbose,
        },
    )
}

/// The canonical name of a category.
pub open spec fn name_of(t: ChalType) -> Seq<char> {
    match t {
        ChalType::Pwn => "Pwn"@,
        ChalType::Reversing => "Reversing"@,
        ChalType::Crypto => "Crypto"@,
        ChalType::Web => "Web"@,
        ChalType::Misc => "Misc"@,
        ChalType::Forensics => "Forensics"@,
        ChalType::Stego => "Stego"@,
    }
}

impl ChalType {
    /// The canonical name of the category.
    pub fn name(self) -> (r: &'static str)
        ensures
            r@ == name_of(self),
    {
        match self {
            ChalType::Pwn => "Pwn",
            ChalType::Reversing => "Reversing",
            ChalType::Crypto => "Crypto",
            ChalType::Web => "Web",
            ChalType::Misc => "Misc",
            ChalType::Forensics => "Forensics",
            ChalType::Stego => "Stego",
        }
    }
}

/// Every category is read back from its canonical name.
pub proof fn name_reads_back(t: ChalType)
    ensures
        category_of(name_of(t)) == Some(t),
{
    reveal_strlit("Pwn");
    reveal_strlit("Reversing");
    reveal_strlit("Crypto");
    reveal_strlit("Web");
    reveal_strlit("Misc");
    reveal_strlit("Forensics");
    reveal_strlit("Stego");
    reveal_strlit("pwn");
    reveal_strlit("reversing");
    reveal_strlit("crypto");
    reveal_strlit("web");
    reveal_strlit("misc");
    reveal_strlit("forensics");
    reveal_strlit("stego");
    assert(lower('P') == 'p' && lower('R') == 'r' && lower('C') == 'c' && lower('W') == 'w'
        && lower('M') == 'm' && lower('F') == 'f' && lower('S') == 's');
    assert(lower("Web"@[0]) != lower("pwn"@[0]));
    assert(lower("Forensics"@[0]) != lower("reversing"@[0]));
}

/// A category outside the closed set is rejected, whatever else is given:
/// validation fails, and for the category where name and author are in
/// order.
pub proof fn unknown_category_rejected(
    name: Seq<char>,
    author: Seq<char>,
    category: Seq<char>,
    directory: Seq<char>,
    docker: bool,
    verbose: bool,
)
    requires
        category_of(category) is None,
    ensures
        assembled(name, author, category, directory, docker, verbose) is Err,
        valid_label(name) && valid_label(author) ==> assembled(
            name,
            author,
            category,
            directory,
            docker,
            verbose,
        ) == Err::<ConfigView, ValidationError>(ValidationError::Category),
{
}

} // verus!
