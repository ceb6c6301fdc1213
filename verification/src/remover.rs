use vstd::prelude::*;
use base64ct::Encoding;
use sha2::Digest;
use crate::confirm::is_affirmative;
use crate::confirm::is_affirmative_input;
use crate::error::XiloError;

verus! {

/// How a target is classified at removal time: anything that is not a real
/// directory (symbolic links included) counts as a file.
#[derive(Debug, Clone, Copy, PartialEq, Eq, Structural)]
pub enum FileTypeToRemove {
    File,
    Directory,
}

/// The SHA-256 digest of a string's UTF-8 bytes; what it is on given bytes
/// only the outside code knows.
pub uninterp spec fn sha256_digest(input: Seq<char>) -> Seq<u8>;

/// Relies on sha2::Sha256 through the Digest trait: the SHA-256 digest of the
/// argument's UTF-8 bytes, 32 bytes long, a function of the input alone.
#[verifier::external_body]
fn sha256_of_str(input: &str) -> (r: Vec<u8>)
    ensures
        r@ == sha256_digest(input@),
        r@.len() == 32,
{
    sha2::Sha256::digest(input.as_bytes()).to_vec()
}

/// The URL-safe Base64 character for one 6-bit value: `A`-`Z`, `a`-`z`,
/// `0`-`9`, `-`, `_`.
pub open spec fn b64_char(v: u8) -> char {
    if v < 26 {
        ((v + 65) as u8) as char
    } else if v < 52 {
        ((v - 26 + 97) as u8) as char
    } else if v < 62 {
        ((v - 52 + 48) as u8) as char
    } else if v == 62 {
        '-'
    } else {
        '_'
    }
}

/// One full 3-byte group of the encoding, as four characters.
pub open spec fn b64_group(b0: u8, b1: u8, b2: u8) -> Seq<char> {
    seq![
        b64_char(b0 >> 2),
        b64_char(((b0 & 3) << 4) | (b1 >> 4)),
        b64_char(((b1 & 15) << 2) | (b2 >> 6)),
        b64_char(b2 & 63),
    ]
}

/// The padded URL-safe Base64 encoding: each 3-byte group becomes four
/// characters; a final group of one or two bytes is encoded with zero fill
/// and closed with `=` padding.
pub open spec fn base64url_of(bytes: Seq<u8>) -> Seq<char>
    decreases bytes.len(),
{
    if bytes.len() == 0 {
        Seq::<char>::empty()
    } else if bytes.len() == 1 {
        seq![b64_char(bytes[0] >> 2), b64_char((bytes[0] & 3) << 4), '=', '=']
    } else if bytes.len() == 2 {
        seq![
            b64_char(bytes[0] >> 2),
            b64_char(((bytes[0] & 3) << 4) | (bytes[1] >> 4)),
            b64_char((bytes[1] & 15) << 2),
            '=',
        ]
    } else {
        b64_group(bytes[0], bytes[1], bytes[2]) + base64url_of(bytes.skip(3))
    }
}

/// Relies on base64ct::Base64Url::encode_string through the Encoding trait:
/// the padded URL-safe Base64 encoding of the bytes, exactly as
/// `base64url_of` states it. The call panics on inputs longer than a quarter
/// of the address space, so those are left out.
#[verifier::external_body]
fn base64url_encode(bytes: &Vec<u8>) -> (r: String)
    requires
        bytes@.len() <= usize::MAX as nat / 4,
    ensures
        r@ == base64url_of(bytes@),
{
    base64ct::Base64Url::encode_string(bytes.as_slice())
}

/// The encoding is four characters for every started 3-byte group.
pub proof fn lemma_base64url_len(bytes: Seq<u8>)
    ensures
        base64url_of(bytes).len() == 4 * ((bytes.len() + 2) / 3),
    decreases bytes.len(),
{
    if bytes.len() >= 3 {
        lemma_base64url_len(bytes.skip(3));
    }
}

proof fn lemma_b64_char_injective(v1: u8, v2: u8)
    requires
        v1 < 64,
        v2 < 64,
        b64_char(v1) == b64_char(v2),
    ensures
        v1 == v2,
{
}

/// Two byte strings of the same length with the same encoding are the same:
/// the encoding is injective, so distinct digests always give distinct
/// trashed-name segments.
pub proof fn lemma_base64url_injective(b1: Seq<u8>, b2: Seq<u8>)
    requires
        b1.len() == b2.len(),
        base64url_of(b1) == base64url_of(b2),
    ensures
        b1 == b2,
    decreases b1.len(),
{
    let e1 = base64url_of(b1);
    let e2 = base64url_of(b2);
    if b1.len() == 0 {
        assert(b1 =~= b2);
    } else if b1.len() == 1 {
        let x = b1[0];
        let y = b2[0];
        assert(x >> 2 < 64 && y >> 2 < 64 && (x & 3) << 4 < 64 && (y & 3) << 4 < 64)
            by (bit_vector);
        lemma_b64_char_injective(x >> 2, y >> 2);
        lemma_b64_char_injective((x & 3) << 4, (y & 3) << 4);
        assert(x == y) by (bit_vector)
            requires
                x >> 2 == y >> 2,
                (x & 3) << 4 == (y & 3) << 4,
        ;
        assert(b1 =~= b2);
    } else if b1.len() == 2 {
        let x0 = b1[0];
        let x1 = b1[1];
        let y0 = b2[0];
        let y1 = b2[1];
        assert(x0 >> 2 < 64 && ((x0 & 3) << 4) | (x1 >> 4) < 64 && (x1 & 15) << 2 < 64)
            by (bit_vector);
        assert(y0 >> 2 < 64 && ((y0 & 3) << 4) | (y1 >> 4) < 64 && (y1 & 15) << 2 < 64)
            by (bit_vector);
        lemma_b64_char_injective(x0 >> 2, y0 >> 2);
        lemma_b64_char_injective(((x0 & 3) << 4) | (x1 >> 4), ((y0 & 3) << 4) | (y1 >> 4));
        lemma_b64_char_injective((x1 & 15) << 2, (y1 & 15) << 2);
        assert(x0 == y0 && x1 == y1) by (bit_vector)
            requires
                x0 >> 2 == y0 >> 2,
                ((x0 & 3) << 4) | (x1 >> 4) == ((y0 & 3) << 4) | (y1 >> 4),
                (x1 & 15) << 2 == (y1 & 15) << 2,
        ;
        assert(b1 =~= b2);
    } else {
        let x0 = b1[0];
        let x1 = b1[1];
        let x2 = b1[2];
        let y0 = b2[0];
        let y1 = b2[1];
        let y2 = b2[2];
        assert(e1[0] == e2[0] && e1[1] == e2[1] && e1[2] == e2[2] && e1[3] == e2[3]);
        assert(x0 >> 2 < 64 && ((x0 & 3) << 4) | (x1 >> 4) < 64 && ((x1 & 15) << 2) | (x2 >> 6)
            < 64 && x2 & 63 < 64) by (bit_vector);
        assert(y0 >> 2 < 64 && ((y0 & 3) << 4) | (y1 >> 4) < 64 && ((y1 & 15) << 2) | (y2 >> 6)
            < 64 && y2 & 63 < 64) by (bit_vector);
        lemma_b64_char_injective(x0 >> 2, y0 >> 2);
        lemma_b64_char_injective(((x0 & 3) << 4) | (x1 >> 4), ((y0 & 3) << 4) | (y1 >> 4));
        lemma_b64_char_injective(((x1 & 15) << 2) | (x2 >> 6), ((y1 & 15) << 2) | (y2 >> 6));
        lemma_b64_char_injective(x2 & 63, y2 & 63);
        assert(x0 == y0 && x1 == y1 && x2 == y2) by (bit_vector)
            requires
                x0 >> 2 == y0 >> 2,
                ((x0 & 3) << 4) | (x1 >> 4) == ((y0 & 3) << 4) | (y1 >> 4),
                ((x1 & 15) << 2) | (x2 >> 6) == ((y1 & 15) << 2) | (y2 >> 6),
                x2 & 63 == y2 & 63,
        ;
        assert(base64url_of(b1.skip(3)) =~= base64url_of(b2.skip(3))) by {
            let t1 = base64url_of(b1.skip(3));
            let t2 = base64url_of(b2.skip(3));
            assert(e1 == b64_group(x0, x1, x2) + t1);
            assert(e2 == b64_group(y0, y1, y2) + t2);
            assert(e1.len() == 4 + t1.len());
            assert(e2.len() == 4 + t2.len());
            assert(t1.len() == t2.len());
            assert forall|k: int| 0 <= k < t1.len() implies t1[k] == t2[k] by {
                assert(e1[4 + k] == t1[k]);
                assert(e2[4 + k] == t2[k]);
            }
        }
        lemma_base64url_injective(b1.skip(3), b2.skip(3));
        assert forall|k: int| 0 <= k < b1.len() implies b1[k] == b2[k] by {
            if k >= 3 {
                assert(b1.skip(3)[k - 3] == b1[k]);
                assert(b2.skip(3)[k - 3] == b2[k]);
            }
        }
        assert(b1 =~= b2);
    }
}

/// Relies on std::time::SystemTime::now, rendered through its Debug form: a
/// wall-clock reading at the moment of the call, at the clock's full
/// resolution. The value depends on the clock, so nothing is promised of it.
#[verifier::external_body]
fn now_repr() -> String {
    format!("{:?}", std::time::SystemTime::now())
}

/// The final path component: everything after the last separator, the whole
/// string when it has none.
pub open spec fn basename_of(p: Seq<char>) -> Seq<char>
    decreases p.len(),
{
    if p.len() == 0 {
        p
    } else if p[p.len() - 1] == '/' {
        Seq::<char>::empty()
    } else {
        basename_of(p.drop_last()).push(p[p.len() - 1])
    }
}

proof fn lemma_basename_suffix(p: Seq<char>, c: int)
    requires
        0 <= c <= p.len(),
        forall|k: int| c <= k < p.len() ==> p[k] != '/',
        c == 0 || p[c - 1] == '/',
    ensures
        basename_of(p) == p.subrange(c, p.len() as int),
    decreases p.len(),
{
    if p.len() == 0 {
        assert(basename_of(p) =~= p.subrange(c, p.len() as int));
    } else if c == p.len() {
        assert(p[c - 1] == '/');
        assert(basename_of(p) =~= p.subrange(c, p.len() as int));
    } else {
        assert(p[p.len() - 1] != '/');
        lemma_basename_suffix(p.drop_last(), c);
        assert(basename_of(p) =~= p.subrange(c, p.len() as int));
    }
}

/// Extracts the final path component.
pub fn basename(path: &str) -> (r: String)
    ensures
        r@ == basename_of(path@),
{
    let n = path.unicode_len();
    let mut cut: usize = n;
    loop
        invariant
            0 <= cut <= n,
            n == path@.len(),
            forall|k: int| cut <= k < n ==> path@[k] != '/',
        ensures
            0 <= cut <= n,
            forall|k: int| cut <= k < n ==> path@[k] != '/',
            cut == 0 || path@[cut - 1] == '/',
        decreases cut,
    {
        if cut > 0 {
            if path.get_char(cut - 1) == '/' {
                break ;
            } else {
                cut = cut - 1;
            }
        } else {
            break ;
        }
    }
    let r = String::from_str(path.substring_char(cut, n));
    proof {
        lemma_basename_suffix(path@, cut as int);
    }
    r
}

/// The trashed name of a target: the encoded digest of the absolute path
/// concatenated with a clock reading, then a separator, then the original
/// basename.
pub open spec fn trashed_name_of(path: Seq<char>, salt: Seq<char>) -> Seq<char> {
    base64url_of(sha256_digest(path + salt)) + "!"@ + basename_of(path)
}

/// The full destination of a trashed target, directly under the trashbin root.
pub open spec fn trashed_path_of(trashbin: Seq<char>, path: Seq<char>, salt: Seq<char>) -> Seq<
    char,
> {
    trashbin + "/"@ + trashed_name_of(path, salt)
}

/// Computes the destination path of a target inside the trashbin, salted with
/// the given clock reading. The digest segment is always 44 characters.
pub fn trashed_destination(trashbin: &str, path: &str, salt: &str) -> (r: String)
    ensures
        r@ == trashed_path_of(trashbin@, path@, salt@),
        sha256_digest(path@ + salt@).len() == 32,
        base64url_of(sha256_digest(path@ + salt@)).len() == 44,
{
    let hash_input = String::from_str(path).concat(salt);
    let digest = sha256_of_str(hash_input.as_str());
    let encoded = base64url_encode(&digest);
    let base = basename(path);
    proof {
        lemma_base64url_len(digest@);
    }
    String::from_str(trashbin).concat("/").concat(encoded.as_str()).concat("!").concat(
        base.as_str(),
    )
}

/// The trashed destination decomposes exactly as the trashbin layout says:
/// the trashbin root, a separator, the 44-character digest segment, the `!`
/// separator, and the original basename, in that order and nothing else.
pub proof fn lemma_trashed_path_shape(trashbin: Seq<char>, path: Seq<char>, salt: Seq<char>)
    requires
        base64url_of(sha256_digest(path + salt)).len() == 44,
    ensures
        ({
            let full = trashed_path_of(trashbin, path, salt);
            let hash = base64url_of(sha256_digest(path + salt));
            let base = basename_of(path);
            full.len() == trashbin.len() + 46 + base.len() && full.subrange(
                0,
                trashbin.len() as int,
            ) == trashbin && full[trashbin.len() as int] == '/' && full.subrange(
                trashbin.len() as int + 1,
                trashbin.len() as int + 45,
            ) == hash && full[trashbin.len() as int + 45] == '!' && full.subrange(
                trashbin.len() as int + 46,
                full.len() as int,
            ) == base
        }),
{
    reveal_strlit("/");
    reveal_strlit("!");
    let full = trashed_path_of(trashbin, path, salt);
    let hash = base64url_of(sha256_digest(path + salt));
    let base = basename_of(path);
    assert(full.subrange(0, trashbin.len() as int) =~= trashbin);
    assert(full.subrange(trashbin.len() as int + 1, trashbin.len() as int + 45) =~= hash);
    assert(full.subrange(trashbin.len() as int + 46, full.len() as int) =~= base);
}

/// Two targets get the same trashed name only where SHA-256 itself maps
/// their hash inputs to the same digest: the name determines its Base64
/// segment, and the encoding is injective, so the segment determines the
/// digest. An equal name for hash inputs that differ (a distinct path, or a
/// distinct clock reading) is therefore a SHA-256 collision — uniqueness of
/// trashed names rests on the digest's collision resistance alone.
pub proof fn lemma_trashed_name_uniqueness(
    path1: Seq<char>,
    salt1: Seq<char>,
    path2: Seq<char>,
    salt2: Seq<char>,
)
    requires
        sha256_digest(path1 + salt1).len() == sha256_digest(path2 + salt2).len(),
        trashed_name_of(path1, salt1) == trashed_name_of(path2, salt2),
    ensures
        sha256_digest(path1 + salt1) == sha256_digest(path2 + salt2),
{
    let d1 = sha256_digest(path1 + salt1);
    let d2 = sha256_digest(path2 + salt2);
    let h1 = base64url_of(d1);
    let h2 = base64url_of(d2);
    lemma_base64url_len(d1);
    lemma_base64url_len(d2);
    let n1 = trashed_name_of(path1, salt1);
    let n2 = trashed_name_of(path2, salt2);
    assert forall|k: int| 0 <= k < h1.len() implies h1[k] == h2[k] by {
        assert(n1[k] == h1[k]);
        assert(n2[k] == h2[k]);
    }
    assert(h1 =~= h2);
    lemma_base64url_injective(d1, d2);
}

/// Two destinations under the same trashbin root coincide only where the
/// trashed names themselves do.
pub proof fn lemma_destination_determines_name(
    trashbin: Seq<char>,
    path1: Seq<char>,
    salt1: Seq<char>,
    path2: Seq<char>,
    salt2: Seq<char>,
)
    requires
        trashed_path_of(trashbin, path1, salt1) == trashed_path_of(trashbin, path2, salt2),
    ensures
        trashed_name_of(path1, salt1) == trashed_name_of(path2, salt2),
{
    reveal_strlit("/");
    let n1 = trashed_name_of(path1, salt1);
    let n2 = trashed_name_of(path2, salt2);
    let f1 = trashed_path_of(trashbin, path1, salt1);
    let f2 = trashed_path_of(trashbin, path2, salt2);
    let head = trashbin.len() as int + 1;
    assert(f1 == trashbin + "/"@ + n1);
    assert(f2 == trashbin + "/"@ + n2);
    assert(f1.len() == trashbin.len() + 1 + n1.len());
    assert(f2.len() == trashbin.len() + 1 + n2.len());
    assert(n1.len() == n2.len());
    assert forall|k: int| 0 <= k < n1.len() implies n1[k] == n2[k] by {
        assert(f1[head + k] == n1[k]);
        assert(f2[head + k] == n2[k]);
    }
    assert(n1 =~= n2);
}

/// The contrapositive, in the form the layout story uses: where SHA-256 is
/// free of a collision on two hash inputs of digest length, the two targets
/// get distinct trashed names.
pub proof fn lemma_distinct_digests_distinct_names(
    path1: Seq<char>,
    salt1: Seq<char>,
    path2: Seq<char>,
    salt2: Seq<char>,
)
    requires
        sha256_digest(path1 + salt1).len() == sha256_digest(path2 + salt2).len(),
        sha256_digest(path1 + salt1) != sha256_digest(path2 + salt2),
    ensures
        trashed_name_of(path1, salt1) != trashed_name_of(path2, salt2),
{
    if trashed_name_of(path1, salt1) == trashed_name_of(path2, salt2) {
        lemma_trashed_name_uniqueness(path1, salt1, path2, salt2);
    }
}

/// Uniqueness of the trashed destinations, stated at the level the engine
/// promises them: two targets are assigned the same destination under one
/// trashbin only where SHA-256 maps their hash inputs to the same digest.
/// With hash inputs that differ (a distinct path, or a distinct clock
/// reading) an equal destination is a SHA-256 collision, so with a
/// collision-resistant digest no two such targets ever meet.
pub proof fn lemma_trashed_destination_uniqueness(
    trashbin: Seq<char>,
    path1: Seq<char>,
    salt1: Seq<char>,
    path2: Seq<char>,
    salt2: Seq<char>,
)
    requires
        sha256_digest(path1 + salt1).len() == sha256_digest(path2 + salt2).len(),
        trashed_path_of(trashbin, path1, salt1) == trashed_path_of(trashbin, path2, salt2),
    ensures
        sha256_digest(path1 + salt1) == sha256_digest(path2 + salt2),
{
    lemma_destination_determines_name(trashbin, path1, salt1, path2, salt2);
    lemma_trashed_name_uniqueness(path1, salt1, path2, salt2);
}

/// Two distinct paths of the same length feed distinct inputs to the digest,
/// whatever the clock readings were.
pub proof fn lemma_distinct_paths_distinct_inputs(
    path1: Seq<char>,
    salt1: Seq<char>,
    path2: Seq<char>,
    salt2: Seq<char>,
)
    requires
        path1.len() == path2.len(),
        path1 != path2,
    ensures
        path1 + salt1 != path2 + salt2,
{
    if path1 + salt1 == path2 + salt2 {
        assert forall|k: int| 0 <= k < path1.len() implies path1[k] == path2[k] by {
            assert((path1 + salt1)[k] == path1[k]);
            assert((path2 + salt2)[k] == path2[k]);
        }
        assert(path1 =~= path2);
    }
}

/// What the removal engine decides for one target before any filesystem
/// action is taken: either a confirmation must be asked first, or the move
/// may proceed at once.
#[derive(Debug, Clone, PartialEq, Eq)]
pub enum RemovalPlan {
    /// The policy asks for permanent destruction: confirm it first.
    PermanentPrompt,
    /// Confirm, then rename the target to `destination`.
    MovePrompt { destination: String },
    /// The force flag is set: rename the target to `destination` at once.
    Move { destination: String },
}

/// The action that ends one removal.
#[derive(Debug, Clone, PartialEq, Eq)]
pub enum RemovalOutcome {
    /// The user declined: a silent no-op success.
    Skip,
    /// Destroy the target for good, bypassing the trashbin.
    DeletePermanently,
    /// Rename the target to `destination` inside the trashbin.
    MoveToTrash { destination: String },
}

/// The removal engine for one target, bound to a resolved trashbin path and
/// the policy of the invocation.
pub struct Remover {
    pub handle_type: FileTypeToRemove,
    pub name: String,
    pub trashbin_path: String,
    pub recursive: bool,
    pub force: bool,
    pub permanent: bool,
}

impl Remover {
    pub fn new(
        handle_type: FileTypeToRemove,
        name: String,
        trashbin_path: String,
        recursive: bool,
        force: bool,
        permanent: bool,
    ) -> (r: Self)
        ensures
            r.handle_type == handle_type,
            r.name@ == name@,
            r.trashbin_path@ == trashbin_path@,
            r.recursive == recursive,
            r.force == force,
            r.permanent == permanent,
    {
        Self { handle_type, name, trashbin_path, recursive, force, permanent }
    }

    /// Decides what to do for this target, salted with the given clock
    /// reading. A directory without the recursive flag is refused before
    /// anything else, prompting included, and that is the only error. The
    /// trashing branch needs a real final path component to name the trashed
    /// entry, so targets without one are left out there.
    pub fn plan_with_salt(&self, salt: &str) -> (r: Result<RemovalPlan, XiloError>)
        requires
            (self.handle_type is File || self.recursive) && !self.permanent ==> basename_of(
                self.name@,
            ).len() > 0,
        ensures
            (self.handle_type is Directory && !self.recursive) <==> r == Err::<
                RemovalPlan,
                XiloError,
            >(XiloError::RemoveDirWithoutRecursiveFlag),
            (self.handle_type is File || self.recursive) ==> {
                if self.permanent {
                    r == Ok::<RemovalPlan, XiloError>(RemovalPlan::PermanentPrompt)
                } else if self.force {
                    r matches Ok(RemovalPlan::Move { destination }) && destination@
                        == trashed_path_of(self.trashbin_path@, self.name@, salt@)
                } else {
                    r matches Ok(RemovalPlan::MovePrompt { destination }) && destination@
                        == trashed_path_of(self.trashbin_path@, self.name@, salt@)
                }
            },
            (self.handle_type is File || self.recursive) && !self.permanent ==> sha256_digest(
                self.name@ + salt@,
            ).len() == 32 && base64url_of(sha256_digest(self.name@ + salt@)).len() == 44,
    {
        if self.handle_type == FileTypeToRemove::Directory && !self.recursive {
            return Err(XiloError::RemoveDirWithoutRecursiveFlag);
        }
        if self.permanent {
            return Ok(RemovalPlan::PermanentPrompt);
        }
        let destination = trashed_destination(
            self.trashbin_path.as_str(),
            self.name.as_str(),
            salt,
        );
        if self.force {
            Ok(RemovalPlan::Move { destination })
        } else {
            Ok(RemovalPlan::MovePrompt { destination })
        }
    }

    /// Decides what to do for this target, salting the trashed name with the
    /// clock now. Whatever the clock read, the destination is the trashed
    /// path of this target for some salt. As with `plan_with_salt`, the
    /// trashing branch needs a real final path component.
    pub fn plan(&self) -> (r: Result<RemovalPlan, XiloError>)
        requires
            (self.handle_type is File || self.recursive) && !self.permanent ==> basename_of(
                self.name@,
            ).len() > 0,
        ensures
            (self.handle_type is Directory && !self.recursive) <==> r == Err::<
                RemovalPlan,
                XiloError,
            >(XiloError::RemoveDirWithoutRecursiveFlag),
            (self.handle_type is File || self.recursive) ==> {
                if self.permanent {
                    r == Ok::<RemovalPlan, XiloError>(RemovalPlan::PermanentPrompt)
                } else if self.force {
                    r matches Ok(RemovalPlan::Move { destination })
                        && exists|salt: Seq<char>|
                        destination@ == trashed_path_of(self.trashbin_path@, self.name@, salt)
                } else {
                    r matches Ok(RemovalPlan::MovePrompt { destination })
                        && exists|salt: Seq<char>|
                        destination@ == trashed_path_of(self.trashbin_path@, self.name@, salt)
                }
            },
    {
        let salt = now_repr();
        let r = self.plan_with_salt(salt.as_str());
        proof {
            if (self.handle_type is File || self.recursive) && !self.permanent {
                if self.force {
                    let d = r->Ok_0->Move_destination;
                    assert(d@ == trashed_path_of(self.trashbin_path@, self.name@, salt@));
                } else {
                    let d = r->Ok_0->MovePrompt_destination;
                    assert(d@ == trashed_path_of(self.trashbin_path@, self.name@, salt@));
                }
            }
        }
        r
    }

    /// Resolves a prompted plan against the line read from the user: an
    /// affirmative answer carries the plan out, anything else is a silent
    /// no-op; a forced move never looks at the answer.
    pub fn outcome(&self, plan: &RemovalPlan, answer: &str) -> (r: RemovalOutcome)
        ensures
            plan is PermanentPrompt ==> (if is_affirmative_input(answer@) {
                r is DeletePermanently
            } else {
                r is Skip
            }),
            (plan matches RemovalPlan::MovePrompt { destination } ==> (if is_affirmative_input(
                answer@,
            ) {
                r matches RemovalOutcome::MoveToTrash { destination: d } && d@ == destination@
            } else {
                r is Skip
            })),
            (plan matches RemovalPlan::Move { destination }
                ==> r matches RemovalOutcome::MoveToTrash { destination: d } && d@
                == destination@),
    {
        match plan {
            RemovalPlan::PermanentPrompt => {
                if is_affirmative(answer) {
                    RemovalOutcome::DeletePermanently
                } else {
                    RemovalOutcome::Skip
                }
            },
            RemovalPlan::MovePrompt { destination } => {
                if is_affirmative(answer) {
                    RemovalOutcome::MoveToTrash { destination: destination.clone() }
                } else {
                    RemovalOutcome::Skip
                }
            },
            RemovalPlan::Move { destination } => {
                RemovalOutcome::MoveToTrash { destination: destination.clone() }
            },
        }
    }

    /// The prompt asked before a permanent removal.
    pub fn permanent_prompt(&self) -> (r: String)
        ensures
            r@ == "Are you sure to remove "@ + self.name@ + " permanently? (y/N): "@,
    {
        String::from_str("Are you sure to remove ").concat(self.name.as_str()).concat(
            " permanently? (y/N): ",
        )
    }

    /// The prompt asked before a move into the trashbin.
    pub fn move_prompt(&self) -> (r: String)
        ensures
            r@ == "Are you sure to remove "@ + self.name@ + "? (y/N): "@,
    {
        String::from_str("Are you sure to remove ").concat(self.name.as_str()).concat(
            "? (y/N): ",
        )
    }

    /// The error reported when the move into the trashbin failed, keeping the
    /// file/directory distinction and the underlying cause.
    pub fn removal_error(&self, reason: String) -> (r: XiloError)
        ensures
            self.handle_type is File ==> (r matches XiloError::RemoveFileFailed {
                filename,
                reason: c,
            } && filename@ == self.name@ && c@ == reason@),
            self.handle_type is Directory ==> (r matches XiloError::RemoveDirFailed {
                dirname,
                reason: c,
            } && dirname@ == self.name@ && c@ == reason@),
    {
        match self.handle_type {
            FileTypeToRemove::File => XiloError::RemoveFileFailed {
                filename: self.name.clone(),
                reason,
            },
            FileTypeToRemove::Directory => XiloError::RemoveDirFailed {
                dirname: self.name.clone(),
                reason,
            },
        }
    }

    /// The error reported when a permanent destruction failed, keeping the
    /// file/directory distinction and the underlying cause.
    pub fn permanent_removal_error(&self, reason: String) -> (r: XiloError)
        ensures
            self.handle_type is File ==> (r matches XiloError::RemoveFilePermanentlyFailed {
                filename,
                reason: c,
            } && filename@ == self.name@ && c@ == reason@),
            self.handle_type is Directory ==> (r matches XiloError::RemoveDirPermanentlyFailed {
                dirname,
                reason: c,
            } && dirname@ == self.name@ && c@ == reason@),
    {
        match self.handle_type {
            FileTypeToRemove::File => XiloError::RemoveFilePermanentlyFailed {
                filename: self.name.clone(),
                reason,
            },
            FileTypeToRemove::Directory => XiloError::RemoveDirPermanentlyFailed {
                dirname: self.name.clone(),
                reason,
            },
        }
    }
}

} // verus!


