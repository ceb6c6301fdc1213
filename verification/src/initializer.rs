use vstd::prelude::*;
use crate::config::XiloConfig;
use crate::error::XiloError;
use crate::remover::FileTypeToRemove;
use crate::remover::Remover;
use crate::space_shower::SpaceShower;

verus! {

/// Whether a sequence begins with the given prefix.
pub open spec fn starts_with_seq(s: Seq<char>, prefix: Seq<char>) -> bool {
    s.len() >= prefix.len() && s.subrange(0, prefix.len() as int) == prefix
}

/// Whether a path can only be expanded with a home directory at hand:
/// a lone tilde, or a tilde followed by a separator. A tilde glued to
/// anything else is an ordinary file name and passes through unchanged.
pub open spec fn needs_home(p: Seq<char>) -> bool {
    p == "~"@ || starts_with_seq(p, "~/"@)
}

/// The tilde expansion of a path against a home directory: a lone tilde is
/// the home directory itself, a tilde-and-separator prefix is replaced by the
/// home directory (without doubling a trailing separator of the home), and
/// everything else passes through unchanged.
pub open spec fn tilde_expanded(p: Seq<char>, home: Seq<char>) -> Seq<char> {
    if p == "~"@ {
        home
    } else if starts_with_seq(p, "~/"@) {
        if home.len() > 0 && home[home.len() - 1] == '/' {
            home + p.subrange(2, p.len() as int)
        } else {
            home + "/"@ + p.subrange(2, p.len() as int)
        }
    } else {
        p
    }
}

/// Expands a leading tilde against the given home directory; `None` exactly
/// when the path needs a home directory and none is known.
pub fn expand_tilde(path: &str, home: Option<&str>) -> (r: Option<String>)
    ensures
        match home {
            Some(h) => r matches Some(s) && s@ == tilde_expanded(path@, h@),
            None => if needs_home(path@) {
                r is None
            } else {
                r matches Some(s) && s@ == path@
            },
        },
{
    proof {
        reveal_strlit("~");
        reveal_strlit("~/");
    }
    let n = path.unicode_len();
    if n >= 1 && path.get_char(0) == '~' {
        if n == 1 {
            proof {
                assert(path@ =~= "~"@);
            }
            match home {
                Some(h) => Some(String::from_str(h)),
                None => None,
            }
        } else if path.get_char(1) == '/' {
            proof {
                assert(path@.subrange(0, 2) =~= "~/"@);
            }
            match home {
                Some(h) => {
                    let rest = path.substring_char(2, n);
                    let hn = h.unicode_len();
                    if hn > 0 && h.get_char(hn - 1) == '/' {
                        Some(String::from_str(h).concat(rest))
                    } else {
                        Some(String::from_str(h).concat("/").concat(rest))
                    }
                },
                None => None,
            }
        } else {
            proof {
                assert(path@ != "~"@);
                assert(!starts_with_seq(path@, "~/"@)) by {
                    if starts_with_seq(path@, "~/"@) {
                        assert(path@.subrange(0, 2)[1] == path@[1]);
                    }
                }
            }
            Some(String::from_str(path))
        }
    } else {
        proof {
            if path@.len() >= 1 {
                assert(path@ != "~"@) by {
                    if path@ == "~"@ {
                        assert(path@[0] == '~');
                    }
                }
                assert(!starts_with_seq(path@, "~/"@)) by {
                    if starts_with_seq(path@, "~/"@) {
                        assert(path@.subrange(0, 2)[0] == path@[0]);
                    }
                }
            }
        }
        Some(String::from_str(path))
    }
}

/// Resolves the effective trashbin directory. The platform default is
/// resolved first and its failure is fatal even when an override is present:
/// under the per-user Trash convention (`home_trash`) it is `<home>/.Trash`,
/// otherwise `<cache>/xilo`. A configured override takes precedence; where
/// the platform expands tildes (`tilde_expansion`), a failed expansion is
/// fatal too.
pub fn resolve_trashbin_path(
    override_path: Option<&str>,
    home: Option<&str>,
    cache: Option<&str>,
    home_trash: bool,
    tilde_expansion: bool,
) -> (r: Result<String, XiloError>)
    ensures
        home_trash && home is None ==> r == Err::<String, XiloError>(
            XiloError::CannotFindTrashbinPath,
        ),
        !home_trash && cache is None ==> r == Err::<String, XiloError>(
            XiloError::CannotFindCacheDirPath,
        ),
        r is Err ==> r == Err::<String, XiloError>(XiloError::CannotFindTrashbinPath) || r
            == Err::<String, XiloError>(XiloError::CannotFindCacheDirPath),
        (home_trash ==> home is Some) && (!home_trash ==> cache is Some) ==> match override_path {
            None => r matches Ok(p) && p@ == (if home_trash {
                home->0@ + "/.Trash"@
            } else {
                cache->0@ + "/xilo"@
            }),
            Some(o) => {
                if !tilde_expansion {
                    r matches Ok(p) && p@ == o@
                } else {
                    match home {
                        Some(h) => r matches Ok(p) && p@ == tilde_expanded(o@, h@),
                        None => if needs_home(o@) {
                            r == Err::<String, XiloError>(XiloError::CannotFindTrashbinPath)
                        } else {
                            r matches Ok(p) && p@ == o@
                        },
                    }
                }
            },
        },
{
    let default_path: String = if home_trash {
        match home {
            None => {
                return Err(XiloError::CannotFindTrashbinPath);
            },
            Some(h) => String::from_str(h).concat("/.Trash"),
        }
    } else {
        match cache {
            None => {
                return Err(XiloError::CannotFindCacheDirPath);
            },
            Some(c) => String::from_str(c).concat("/xilo"),
        }
    };
    match override_path {
        None => Ok(default_path),
        Some(o) => {
            if tilde_expansion {
                match expand_tilde(o, home) {
                    Some(p) => Ok(p),
                    None => Err(XiloError::CannotFindTrashbinPath),
                }
            } else {
                Ok(String::from_str(o))
            }
        },
    }
}

/// Relies on dirs::home_dir: the current user's home directory, if the
/// environment discloses one. The value depends on the environment, so
/// nothing is promised of it.
#[verifier::external_body]
fn home_dir_string() -> Option<String> {
    dirs::home_dir().map(|p| p.to_string_lossy().into_owned())
}

/// Relies on dirs::cache_dir: the per-user cache directory, if the
/// environment discloses one. The value depends on the environment, so
/// nothing is promised of it.
#[verifier::external_body]
fn cache_dir_string() -> Option<String> {
    dirs::cache_dir().map(|p| p.to_string_lossy().into_owned())
}

/// The prompt asked before emptying the trashbin.
pub fn reset_trashbin_prompt() -> (r: String)
    ensures
        r@ == "Are you sure to empty trashbin? (y/N): "@,
{
    String::from_str("Are you sure to empty trashbin? (y/N): ")
}

/// Prepares the removal engine: owns the resolved trashbin path and the
/// policy flags of one invocation.
pub struct Initializer {
    pub trashbin_path: String,
    pub recursive: bool,
    pub force: bool,
    pub permanent: bool,
    pub show_space: bool,
}

impl Initializer {
    /// Resolves the trashbin directory for this machine and environment: the
    /// configured override if one is present, the platform default otherwise.
    /// What the environment discloses cannot be pinned down, but every
    /// successful result has the resolved shape.
    pub fn locate_trashbin(
        config: Option<&XiloConfig>,
        home_trash: bool,
        tilde_expansion: bool,
    ) -> (r: Result<String, XiloError>)
        ensures
            (match config {
                Some(c) => c.trashbin_path is None,
                None => true,
            }) && home_trash ==> (r matches Ok(p) ==> exists|h: Seq<char>|
                p@ == h + "/.Trash"@),
            (match config {
                Some(c) => c.trashbin_path is None,
                None => true,
            }) && !home_trash ==> (r matches Ok(p) ==> exists|c: Seq<char>| p@ == c + "/xilo"@),
            config matches Some(c) ==> c.trashbin_path matches Some(o) ==> r matches Ok(p) ==> (
            !tilde_expansion || !needs_home(o@) ==> p@ == o@),
            config matches Some(c) ==> c.trashbin_path matches Some(o) ==> r matches Ok(p) ==> (
            tilde_expansion && needs_home(o@) ==> exists|h: Seq<char>|
                p@ == tilde_expanded(o@, h)),
            r is Err ==> r == Err::<String, XiloError>(XiloError::CannotFindTrashbinPath) || r
                == Err::<String, XiloError>(XiloError::CannotFindCacheDirPath),
    {
        let home = home_dir_string();
        let cache = cache_dir_string();
        let home_ref: Option<&str> = match &home {
            Some(h) => Some(h.as_str()),
            None => None,
        };
        let cache_ref: Option<&str> = match &cache {
            Some(c) => Some(c.as_str()),
            None => None,
        };
        let override_ref: Option<&str> = match config {
            Some(c) => match &c.trashbin_path {
                Some(o) => Some(o.as_str()),
                None => None,
            },
            None => None,
        };
        let r = resolve_trashbin_path(override_ref, home_ref, cache_ref, home_trash, tilde_expansion);
        proof {
            if r is Ok {
                match override_ref {
                    None => {
                        if home_trash {
                            assert(exists|h: Seq<char>| r->Ok_0@ == h + "/.Trash"@) by {
                                assert(r->Ok_0@ == home_ref->0@ + "/.Trash"@);
                            }
                        } else {
                            assert(exists|c: Seq<char>| r->Ok_0@ == c + "/xilo"@) by {
                                assert(r->Ok_0@ == cache_ref->0@ + "/xilo"@);
                            }
                        }
                    },
                    Some(o) => {
                        if tilde_expansion {
                            match home_ref {
                                Some(h) => {
                                    assert(r->Ok_0@ == tilde_expanded(o@, h@));
                                    if needs_home(o@) {
                                        assert(exists|hh: Seq<char>|
                                            r->Ok_0@ == tilde_expanded(o@, hh)) by {
                                            assert(r->Ok_0@ == tilde_expanded(o@, h@));
                                        }
                                    } else {
                                        assert(tilde_expanded(o@, h@) == o@);
                                    }
                                },
                                None => {
                                    assert(!needs_home(o@) && r->Ok_0@ == o@);
                                },
                            }
                        }
                    },
                }
            }
        }
        r
    }

    /// Binds the engine to an already prepared trashbin path; every policy
    /// flag starts false.
    pub fn new(trashbin_path: String) -> (r: Self)
        ensures
            r.trashbin_path@ == trashbin_path@,
            !r.recursive,
            !r.force,
            !r.permanent,
            !r.show_space,
    {
        Self { trashbin_path, recursive: false, force: false, permanent: false, show_space: false }
    }

    /// Sets the recursive flag, leaving everything else as it was.
    pub fn recursive(self, val: bool) -> (r: Self)
        ensures
            r.recursive == val,
            r.trashbin_path == self.trashbin_path,
            r.force == self.force,
            r.permanent == self.permanent,
            r.show_space == self.show_space,
    {
        Self { recursive: val, ..self }
    }

    /// Sets the force flag, leaving everything else as it was.
    pub fn force(self, val: bool) -> (r: Self)
        ensures
            r.force == val,
            r.trashbin_path == self.trashbin_path,
            r.recursive == self.recursive,
            r.permanent == self.permanent,
            r.show_space == self.show_space,
    {
        Self { force: val, ..self }
    }

    /// Sets the permanent flag, leaving everything else as it was.
    pub fn permanent(self, val: bool) -> (r: Self)
        ensures
            r.permanent == val,
            r.trashbin_path == self.trashbin_path,
            r.recursive == self.recursive,
            r.force == self.force,
            r.show_space == self.show_space,
    {
        Self { permanent: val, ..self }
    }

    /// Sets the show-space flag, leaving everything else as it was.
    pub fn show_space(self, val: bool) -> (r: Self)
        ensures
            r.show_space == val,
            r.trashbin_path == self.trashbin_path,
            r.recursive == self.recursive,
            r.force == self.force,
            r.permanent == self.permanent,
    {
        Self { show_space: val, ..self }
    }

    /// Builds the removal engine for one target, bound to this trashbin and
    /// this invocation's policy.
    pub fn make_remover(&self, handle_type: FileTypeToRemove, name: String) -> (r: Remover)
        ensures
            r.handle_type == handle_type,
            r.name@ == name@,
            r.trashbin_path@ == self.trashbin_path@,
            r.recursive == self.recursive,
            r.force == self.force,
            r.permanent == self.permanent,
    {
        Remover::new(
            handle_type,
            name,
            self.trashbin_path.clone(),
            self.recursive,
            self.force,
            self.permanent,
        )
    }

    /// Builds the space accounting view over this trashbin.
    pub fn make_space_shower(&self) -> (r: SpaceShower)
        ensures
            r.trashbin_path@ == self.trashbin_path@,
    {
        SpaceShower::new(self.trashbin_path.clone())
    }
}

} // verus!
