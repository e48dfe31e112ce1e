use vstd::prelude::*;

verus! {

/// The file name that every event device node starts with.
pub const DEVICE_PREFIX: &'static str = "event";

/// Whether two path strings name the same path, as `std::path::Path`
/// compares them.
pub uninterp spec fn path_equal(a: Seq<char>, b: Seq<char>) -> bool;

/// The final component of a path string, as `std::path::Path::file_name`
/// finds it.
pub uninterp spec fn file_name_of(path: Seq<char>) -> Option<Seq<char>>;

/// Relies on `==` of `std::path::Path`, which compares paths component by
/// component; it is an equivalence, so equal strings are equal paths.
#[verifier::external_body]
pub(crate) fn same_path(a: &String, b: &String) -> (r: bool)
    ensures
        r == path_equal(a@, b@),
        a@ == b@ ==> r,
{
    std::path::Path::new(a.as_str()) == std::path::Path::new(b.as_str())
}

/// Relies on `std::path::Path::file_name`: the final component of the path,
/// if there is one.
#[verifier::external_body]
fn file_name(path: &String) -> (r: Option<String>)
    ensures
        match r {
            Some(n) => file_name_of(path@) == Some(n@),
            None => file_name_of(path@) == None::<Seq<char>>,
        },
{
    match std::path::Path::new(path.as_str()).file_name() {
        Some(name) => Some(name.to_string_lossy().into_owned()),
        None => None,
    }
}

/// Relies on `str::starts_with` with a string pattern: whether `prefix` is a
/// prefix of `s`.
#[verifier::external_body]
fn starts_with(s: &String, prefix: &str) -> (r: bool)
    ensures
        r == (prefix@.len() <= s@.len() && s@.subrange(0, prefix@.len() as int) == prefix@),
{
    s.as_str().starts_with(prefix)
}

/// Why a source path is not admitted.
#[derive(Clone, Copy, Debug, PartialEq, Eq, Structural)]
pub enum Rejection {
    /// The path is a node of the synthetic trackpad itself.
    OwnDevice,
    /// The path is on the deny list.
    Denied,
    /// The allow list is not empty and the path is not on it.
    NotAllowed,
    /// The file name is not that of an event device node.
    NotEventNode,
}

/// Why admission failed. `Rejected` is the ordinary outcome for a path that
/// is filtered out; the others point at something wrong in the caller.
#[derive(Clone, Copy, Debug, PartialEq, Eq, Structural)]
pub enum AdmitError {
    Rejected(Rejection),
    /// The path has no file name.
    NoFileName,
    /// The path is registered already.
    AlreadyRegistered,
}

impl AdmitError {
    /// Whether this is an internal-consistency error rather than a rejection.
    pub fn is_failure(&self) -> (r: bool)
        ensures
            r == !(*self is Rejected),
    {
        match self {
            AdmitError::Rejected(_) => false,
            _ => true,
        }
    }
}

/// Whether `a` and `b` name the same path: they are equal strings, or
/// `std::path::Path` finds them equal.
pub open spec fn same_path_as(a: Seq<char>, b: Seq<char>) -> bool {
    a == b || path_equal(a, b)
}

/// Whether some path of `list` is the same path as `path`.
pub open spec fn listed(list: Seq<String>, path: Seq<char>) -> bool {
    exists|i: int| 0 <= i < list.len() && same_path_as(#[trigger] list[i]@, path)
}

pub open spec fn is_event_node(name: Seq<char>) -> bool {
    DEVICE_PREFIX@.len() <= name.len() && name.subrange(0, DEVICE_PREFIX@.len() as int)
        == DEVICE_PREFIX@
}

/// The outcome of admitting `path`, given the synthetic device's own nodes,
/// the allow and deny lists, and the paths registered already.
pub open spec fn admission(
    path: Seq<char>,
    own: Seq<String>,
    allow: Seq<String>,
    deny: Seq<String>,
    registered: Seq<String>,
) -> Result<(), AdmitError> {
    if listed(own, path) {
        Err(AdmitError::Rejected(Rejection::OwnDevice))
    } else if listed(deny, path) {
        Err(AdmitError::Rejected(Rejection::Denied))
    } else if allow.len() > 0 && !listed(allow, path) {
        Err(AdmitError::Rejected(Rejection::NotAllowed))
    } else {
        match file_name_of(path) {
            None => Err(AdmitError::NoFileName),
            Some(name) => if !is_event_node(name) {
                Err(AdmitError::Rejected(Rejection::NotEventNode))
            } else if listed(registered, path) {
                Err(AdmitError::AlreadyRegistered)
            } else {
                Ok(())
            },
        }
    }
}

/// Whether some path of `list` is the same path as `path`.
pub fn contains_path(list: &Vec<String>, path: &String) -> (r: bool)
    ensures
        r == listed(list@, path@),
{
    let mut i: usize = 0;
    while i < list.len()
        invariant
            0 <= i <= list.len(),
            forall|j: int| 0 <= j < i ==> !same_path_as(#[trigger] list@[j]@, path@),
        decreases list.len() - i,
    {
        if same_path(&list[i], path) {
            return true;
        }
        i = i + 1;
    }
    false
}

/// Decides whether `path` may be registered. The checks come in this order:
/// the synthetic device's own nodes, the deny list, the allow list, the file
/// name, and last whether the path is registered already.
pub fn check_admission(
    path: &String,
    own: &Vec<String>,
    allow: &Vec<String>,
    deny: &Vec<String>,
    registered: &Vec<String>,
) -> (r: Result<(), AdmitError>)
    ensures
        r == admission(path@, own@, allow@, deny@, registered@),
{
    if contains_path(own, path) {
        return Err(AdmitError::Rejected(Rejection::OwnDevice));
    }
    if contains_path(deny, path) {
        return Err(AdmitError::Rejected(Rejection::Denied));
    }
    if allow.len() > 0 && !contains_path(allow, path) {
        return Err(AdmitError::Rejected(Rejection::NotAllowed));
    }
    let name = match file_name(path) {
        Some(name) => name,
        None => {
            return Err(AdmitError::NoFileName);
        },
    };
    if !starts_with(&name, DEVICE_PREFIX) {
        return Err(AdmitError::Rejected(Rejection::NotEventNode));
    }
    if contains_path(registered, path) {
        return Err(AdmitError::AlreadyRegistered);
    }
    Ok(())
}

/// A path on the deny list is never admitted, whatever the allow list holds.
pub proof fn lemma_deny_first(
    path: Seq<char>,
    own: Seq<String>,
    allow: Seq<String>,
    deny: Seq<String>,
    registered: Seq<String>,
)
    requires
        listed(deny, path),
    ensures
        admission(path, own, allow, deny, registered) is Err,
        !listed(own, path) ==> admission(path, own, allow, deny, registered) == Err::<(), AdmitError>(
            AdmitError::Rejected(Rejection::Denied),
        ),
{
}

/// A node of the synthetic trackpad is never admitted, whatever the allow and
/// deny lists hold.
pub proof fn lemma_self_excluded(
    path: Seq<char>,
    own: Seq<String>,
    allow: Seq<String>,
    deny: Seq<String>,
    registered: Seq<String>,
)
    requires
        listed(own, path),
    ensures
        admission(path, own, allow, deny, registered) == Err::<(), AdmitError>(
            AdmitError::Rejected(Rejection::OwnDevice),
        ),
{
}

/// Admitting a path a second time fails with `AlreadyRegistered`, an error
/// that is not a rejection: whenever `path` was admitted against the
/// registered paths `registered`, and so registered after them, admitting it
/// again against the same lists gives that error.
pub proof fn lemma_readmission(
    path: String,
    own: Seq<String>,
    allow: Seq<String>,
    deny: Seq<String>,
    registered: Seq<String>,
)
    requires
        admission(path@, own, allow, deny, registered) is Ok,
    ensures
        admission(path@, own, allow, deny, registered.push(path)) == Err::<(), AdmitError>(
            AdmitError::AlreadyRegistered,
        ),
        !(admission(path@, own, allow, deny, registered.push(path)) matches Err(
            AdmitError::Rejected(_),
        )),
{
    let later = registered.push(path);
    assert(same_path_as(later[registered.len() as int]@, path@));
}

} // verus!
