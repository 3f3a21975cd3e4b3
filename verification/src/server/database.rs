//! The store: where content lies, and how a file is taken in under its digest.

use blake2_rfc::blake2b::Blake2b;
use uuid::Uuid;
use vstd::prelude::*;
use vstd::string::*;

use crate::server::config::Config;
use crate::types::ContentId;

verus! {

/// The hashing context of `blake2_rfc`; Verus sees nothing inside it.
#[verifier::external_type_specification]
#[verifier::external_body]
pub struct ExBlake2b(blake2_rfc::blake2b::Blake2b);

/// The identifier of the `uuid` crate; Verus sees nothing inside it.
#[verifier::external_type_specification]
#[verifier::external_body]
pub struct ExUuid(uuid::Uuid);

/// The name of the bytes that a hashing context, made without a key, has been given
/// since it was made.
pub uninterp spec fn hash_input(context: Blake2b) -> Seq<u8>;

/// The name of the length of the digest that a hashing context was made for.
pub uninterp spec fn digest_size(context: Blake2b) -> nat;

/// The name of the unkeyed BLAKE2b digest of `data`, sixty-four bytes long: what
/// `Blake2b::finalize` returns for a context that was made for that length, without a
/// key, and given `data`.
pub uninterp spec fn blake2b_512(data: Seq<u8>) -> Seq<u8>;

/// Calls `Blake2b::new(64)`: a context without a key for a digest of sixty-four bytes,
/// which has been given nothing yet.
#[verifier::external_body]
fn new_context() -> (result: Blake2b)
    ensures
        hash_input(result) == Seq::<u8>::empty(),
        digest_size(result) == 64,
{
    Blake2b::new(64)
}

/// Calls `Blake2b::update`, which adds `data` to what the context has been given. It
/// counts the bytes in 64 bits and panics past that, so longer input is left out.
#[verifier::external_body]
fn update_context(context: &mut Blake2b, data: &[u8])
    requires
        hash_input(*old(context)).len() + data@.len() <= u64::MAX,
    ensures
        hash_input(*final(context)) == hash_input(*old(context)) + data@,
        digest_size(*final(context)) == digest_size(*old(context)),
{
    context.update(data)
}

/// Calls `Blake2b::finalize` and copies the digest out: as many bytes as the context was
/// made for, which depend on nothing but what it was given.
#[verifier::external_body]
fn finalize_context(context: Blake2b) -> (result: Vec<u8>)
    requires
        digest_size(context) == 64,
    ensures
        result@ == blake2b_512(hash_input(context)),
        result@.len() == 64,
{
    context.finalize().as_bytes().to_vec()
}

/// Calls `Uuid::new_v4`, which draws a random identifier.
#[verifier::external_body]
fn random_uuid() -> Uuid {
    Uuid::new_v4()
}

/// Whether a character is a hexadecimal digit in lower case.
pub open spec fn is_lower_hex(c: char) -> bool {
    ('0' <= c && c <= '9') || ('a' <= c && c <= 'f')
}

/// The hyphenated form of an identifier: thirty-six characters, hyphens at the places
/// 8, 13, 18 and 23, hexadecimal digits in lower case elsewhere.
pub open spec fn hyphenated_form(text: Seq<char>) -> bool {
    &&& text.len() == 36
    &&& forall|i: int|
        0 <= i < 36 ==> if i == 8 || i == 13 || i == 18 || i == 23 {
            #[trigger] text[i] == '-'
        } else {
            is_lower_hex(text[i])
        }
}

/// Formats `Uuid::hyphenated` with `{}`: the identifier's thirty-two hexadecimal digits
/// in lower case, in groups of 8, 4, 4, 4 and 12 with hyphens between them.
#[verifier::external_body]
fn hyphenated(id: &Uuid) -> (result: String)
    ensures
        hyphenated_form(result@),
{
    format!("{}", id.hyphenated())
}

/// The size of the pieces in which a file is read.
pub const READ_BUFFER_SIZE: usize = 4096;

/// A hashing context and the number of bytes it was given.
struct Hashing {
    context: Blake2b,
    total: u64,
}

/// A file on its way into the store: the digest of what has come of it so far.
pub struct Ingest {
    inner: Hashing,
}

/// What the store makes of one piece of a file.
#[derive(Debug, Clone, Copy, PartialEq, Eq, Structural)]
pub enum Fed {
    /// The piece was taken into the digest and is to be written to the temporary file.
    More,
    /// The piece is empty: the file has ended.
    End,
    /// The file is longer than the digest can count; the piece was not taken.
    Overflow,
}

impl Ingest {
    #[verifier::type_invariant]
    spec fn counted(self) -> bool {
        &&& self.inner.total == hash_input(self.inner.context).len()
        &&& digest_size(self.inner.context) == 64
    }

    /// The bytes taken in so far.
    pub closed spec fn absorbed(&self) -> Seq<u8> {
        hash_input(self.inner.context)
    }

    /// The start of a file: nothing taken in.
    pub fn new() -> (ingest: Ingest)
        ensures
            ingest.absorbed() == Seq::<u8>::empty(),
    {
        Ingest { inner: Hashing { context: new_context(), total: 0 } }
    }

    /// What becomes of a piece after `absorbed` bytes: an empty one ends the file, one
    /// that the count has room for is taken.
    pub open spec fn fed(absorbed: Seq<u8>, chunk: Seq<u8>) -> Fed {
        if chunk.len() == 0 {
            Fed::End
        } else if absorbed.len() + chunk.len() > u64::MAX {
            Fed::Overflow
        } else {
            Fed::More
        }
    }

    /// Takes the next piece of the file.
    pub fn feed(&mut self, chunk: &[u8]) -> (fed: Fed)
        ensures
            fed == Self::fed(old(self).absorbed(), chunk@),
            fed == Fed::More ==> final(self).absorbed() == old(self).absorbed() + chunk@,
            fed != Fed::More ==> final(self).absorbed() == old(self).absorbed(),
    {
        proof {
            use_type_invariant(&*self);
        }
        if chunk.len() == 0 {
            return Fed::End;
        }
        if chunk.len() as u64 > u64::MAX - self.inner.total {
            return Fed::Overflow;
        }
        let mut inner = Hashing { context: new_context(), total: 0 };
        core::mem::swap(&mut self.inner, &mut inner);
        update_context(&mut inner.context, chunk);
        inner.total = inner.total + chunk.len() as u64;
        self.inner = inner;
        Fed::More
    }

    /// Ends the file: the identifier is the digest of all that was taken in.
    pub fn finish(self) -> (id: ContentId)
        ensures
            id@ == blake2b_512(self.absorbed()),
    {
        proof {
            use_type_invariant(&self);
        }
        let digest = finalize_context(self.inner.context);
        ContentId::from_slice(digest.as_slice())
    }
}

/// The digest of a file's content, computed piece by piece as a file is read.
pub fn checksum_file(content: &[u8]) -> (digest: Vec<u8>)
    ensures
        digest@ == blake2b_512(content@),
        digest@.len() == 64,
{
    let mut context = new_context();
    let mut done: usize = 0;
    proof {
        assert(content@.take(0) =~= Seq::<u8>::empty());
    }
    while done < content.len()
        invariant
            done <= content.len(),
            hash_input(context) == content@.take(done as int),
            digest_size(context) == 64,
        decreases content.len() - done,
    {
        let end: usize = if content.len() - done > READ_BUFFER_SIZE {
            done + READ_BUFFER_SIZE
        } else {
            content.len()
        };
        update_context(&mut context, &content[done..end]);
        proof {
            assert(content@.take(done as int) + content@.subrange(done as int, end as int)
                =~= content@.take(end as int));
        }
        done = end;
    }
    proof {
        assert(content@.take(content.len() as int) =~= content@);
    }
    finalize_context(context)
}

/// The store.
#[derive(Debug)]
pub struct Database {
    pub config: Config,
    pub version: String,
    pub rustc_version: String,
    /// Drawn at random when the store is opened.
    pub run_id: Uuid,
}

impl Database {
    /// Opens the store under its settings. The directories are the caller's to make.
    pub fn new(config: Config) -> (db: Self)
        ensures
            db.config == config,
            db.version@ == "0.0.0"@,
            db.rustc_version@ == ""@,
    {
        Database {
            config: config,
            version: "0.0.0".to_owned(),
            rustc_version: "".to_owned(),
            run_id: random_uuid(),
        }
    }

    /// The directory and the file under which content with the digest `hash` lies: the
    /// files directory, the first two digits, the next two, and the rest as file name.
    pub open spec fn path_of(self, hash: Seq<char>) -> (Seq<char>, Seq<char>) {
        let dir = self.config.filesdir@ + "/"@ + hash.subrange(0, 2) + "/"@ + hash.subrange(2, 4);
        (dir, dir + "/"@ + hash.subrange(4, hash.len() as int))
    }

    /// Where content with the digest `hash`, more than four characters of it, lies.
    pub fn make_path(&self, hash: &str) -> (paths: (String, String))
        requires
            hash@.len() > 4,
        ensures
            (paths.0@, paths.1@) == self.path_of(hash@),
    {
        let len: usize = hash.unicode_len();
        let mut dir = self.config.filesdir.clone();
        dir.append("/");
        dir.append(hash.substring_char(0, 2));
        dir.append("/");
        dir.append(hash.substring_char(2, 4));
        let mut file = dir.clone();
        file.append("/");
        file.append(hash.substring_char(4, len));
        proof {
            assert(dir@ =~= self.path_of(hash@).0);
            assert(file@ =~= self.path_of(hash@).1);
        }
        (dir, file)
    }

    /// Where content under an identifier lies.
    pub fn place(&self, id: &ContentId) -> (paths: (String, String))
        ensures
            (paths.0@, paths.1@) == self.path_of(crate::protocol::text::hex_text(id@)),
    {
        let hash = id.to_string();
        self.make_path(hash.as_str())
    }

    /// Takes content into the store, as far as that is a matter of computing: reads it in
    /// pieces as a file is read, and says under which identifier, in which directory and
    /// as which file it is to lie. The identifier is the digest of the content.
    pub fn copy_from(&self, content: &[u8]) -> (stored: (ContentId, String, String))
        ensures
            stored.0@ == blake2b_512(content@),
            (stored.1@, stored.2@) == self.path_of(crate::protocol::text::hex_text(stored.0@)),
    {
        let digest = checksum_file(content);
        let id = ContentId::from_slice(digest.as_slice());
        let (dir, file) = self.place(&id);
        (id, dir, file)
    }

    /// The name of a temporary file: an identifier drawn at random, in hyphenated form,
    /// and the extension `.tmp`.
    pub fn temp_name() -> (name: String)
        ensures
            name@.len() == 40,
            hyphenated_form(name@.subrange(0, 36)),
            name@.subrange(36, 40) == ".tmp"@,
    {
        let id = random_uuid();
        let mut name = hyphenated(&id);
        let ghost stem = name@;
        name.append(".tmp");
        proof {
            reveal_strlit(".tmp");
            assert(name@.subrange(0, 36) =~= stem);
            assert(name@.subrange(36, 40) =~= ".tmp"@);
        }
        name
    }
}

} // verus!
