//! Application directories and the set of authorized client keys.
use crate::error::{directories_unavailable_error, key_error, Error};
use crate::job::create_job_mutation::new_id;
use crate::text::same_text;
use vstd::prelude::*;
use vstd::string::StringExecFns;

verus! {

/// The directories that the platform assigns to this application.
#[derive(Debug)]
pub struct ProjectDirs {
    pub config_dir: String,
    pub data_dir: String,
}

/// Calls `directories::ProjectDirs::from` and copies the configuration
/// and data directories out of what it returns, or gives `None` where
/// it finds no home directory. The outcome depends on the environment,
/// so nothing is claimed of it.
#[verifier::external_body]
fn project_dirs(qualifier: &str, organization: &str, application: &str) -> (r: Option<ProjectDirs>) {
    match directories::ProjectDirs::from(qualifier, organization, application) {
        Some(dirs) => Some(
            ProjectDirs {
                config_dir: dirs.config_dir().to_string_lossy().into_owned(),
                data_dir: dirs.data_dir().to_string_lossy().into_owned(),
            },
        ),
        None => None,
    }
}

/// What [`directories`] answers once the platform has been asked.
pub fn directories_from(found: Option<ProjectDirs>) -> (r: Result<ProjectDirs, Error>)
    ensures
        match found {
            Some(dirs) => r == Ok::<ProjectDirs, Error>(dirs),
            None => r matches Err(e) && e@ == directories_unavailable_error(),
        },
{
    match found {
        Some(dirs) => Ok(dirs),
        None => Err(Error::directories_unavailable()),
    }
}

/// The directories of the application `slicer-server`, or an error
/// where the platform has none to offer.
pub fn directories() -> (r: Result<ProjectDirs, Error>)
    ensures
        r matches Err(e) ==> e@ == directories_unavailable_error(),
{
    directories_from(project_dirs("", "", "slicer-server"))
}

/// A client that may use the server, and the key that it signs with.
#[derive(Debug)]
pub struct ClientKey {
    pub id: String,
    pub label: String,
    pub public_key_pem: String,
}

pub struct ClientKeyView {
    pub id: Seq<char>,
    pub label: Seq<char>,
    pub public_key_pem: Seq<char>,
}

impl View for ClientKey {
    type V = ClientKeyView;

    open spec fn view(&self) -> ClientKeyView {
        ClientKeyView { id: self.id@, label: self.label@, public_key_pem: self.public_key_pem@ }
    }
}

impl Clone for ClientKey {
    fn clone(&self) -> (r: Self)
        ensures
            r@ == self@,
    {
        ClientKey {
            id: self.id.clone(),
            label: self.label.clone(),
            public_key_pem: self.public_key_pem.clone(),
        }
    }
}

/// The views of a list of keys, in order.
pub open spec fn key_views(keys: Seq<ClientKey>) -> Seq<ClientKeyView> {
    keys.map_values(|key: ClientKey| key@)
}

/// No two keys of the list have the same id.
pub open spec fn distinct_ids(keys: Seq<ClientKeyView>) -> bool {
    forall|i: int, j: int|
        0 <= i < keys.len() && 0 <= j < keys.len() && i != j ==> (#[trigger] keys[i]).id != (
        #[trigger] keys[j]).id
}

/// The configuration of the server: the keys that are authorized to
/// use it, in the order in which they were authorized. No two of them
/// have the same id.
#[derive(Debug)]
pub struct Config {
    authorized_keys: Vec<ClientKey>,
}

impl View for Config {
    type V = Seq<ClientKeyView>;

    closed spec fn view(&self) -> Seq<ClientKeyView> {
        key_views(self.authorized_keys@)
    }
}

impl Default for Config {
    fn default() -> (r: Config)
        ensures
            r@ == Seq::<ClientKeyView>::empty(),
    {
        let r = Config { authorized_keys: Vec::new() };
        assert(r@ =~= Seq::<ClientKeyView>::empty());
        r
    }
}

#[verifier::external_type_specification]
#[verifier::external_body]
pub struct ExES256KeyPair(jwt_simple::algorithms::ES256KeyPair);

#[verifier::external_type_specification]
#[verifier::external_body]
pub struct ExES256PublicKey(jwt_simple::algorithms::ES256PublicKey);

#[verifier::external_type_specification]
#[verifier::external_body]
#[verifier::reject_recursive_types(K)]
#[verifier::reject_recursive_types(V)]
pub struct ExJsonMap<K, V>(serde_json::Map<K, V>);

#[verifier::external_type_specification]
#[verifier::external_body]
pub struct ExJsonValue(serde_json::Value);

/// Calls `ES256KeyPair::generate`, which draws a fresh key pair at
/// random. Nothing is claimed of it.
#[verifier::external_body]
fn generate_key_pair() -> (r: jwt_simple::algorithms::ES256KeyPair) {
    jwt_simple::algorithms::ES256KeyPair::generate()
}

/// Calls `ES256KeyPair::to_pem`: the key pair in PEM, or `None` where
/// it cannot be written.
#[verifier::external_body]
fn key_pair_pem(key_pair: &jwt_simple::algorithms::ES256KeyPair) -> (r: Option<String>) {
    key_pair.to_pem().ok()
}

/// Calls `ES256KeyPair::public_key`, the public half of the pair.
#[verifier::external_body]
fn public_key(key_pair: &jwt_simple::algorithms::ES256KeyPair) -> (r:
    jwt_simple::algorithms::ES256PublicKey) {
    key_pair.public_key()
}

/// Calls `ES256PublicKey::to_pem`: the key in PEM, or `None` where it
/// cannot be written.
#[verifier::external_body]
fn public_key_pem(key: &jwt_simple::algorithms::ES256PublicKey) -> (r: Option<String>) {
    key.to_pem().ok()
}

/// What a JSON object holds: the string that stands under each key.
/// The objects that this library makes hold nothing but strings.
pub uninterp spec fn json_fields(object: serde_json::Map<String, serde_json::Value>) -> Map<
    Seq<char>,
    Seq<char>,
>;

/// The JSON text of an object that holds these strings under these
/// keys.
pub uninterp spec fn json_text_of(fields: Map<Seq<char>, Seq<char>>) -> Seq<char>;

/// The Base58 encoding of the UTF-8 bytes of `text`, in the Bitcoin
/// alphabet.
pub uninterp spec fn base58_of(text: Seq<char>) -> Seq<char>;

/// The fields of an object that holds nothing.
pub open spec fn no_fields() -> Map<Seq<char>, Seq<char>> {
    Map::empty()
}

/// Calls `serde_json::Map::new`, which makes an empty object.
#[verifier::external_body]
fn json_object() -> (r: serde_json::Map<String, serde_json::Value>)
    ensures
        json_fields(r) == no_fields(),
{
    serde_json::Map::new()
}

/// Calls `serde_json::Map::insert` with the string `value` under
/// `key`: the object then holds `value` there, in place of what it held
/// there before, and everything else as it was.
#[verifier::external_body]
fn json_insert(
    object: &mut serde_json::Map<String, serde_json::Value>,
    key: &str,
    value: &str,
)
    ensures
        json_fields(*final(object)) == json_fields(*old(object)).insert(key@, value@),
{
    object.insert(key.to_owned(), serde_json::Value::String(value.to_owned()));
}

/// Calls `serde_json::to_string` on the object. It does not fail on an
/// object: the keys are strings, and the text is written to memory.
/// The text is a function of what the object holds; the contract names
/// it `json_text_of` and claims nothing more of it.
#[verifier::external_body]
fn json_to_string(object: &serde_json::Map<String, serde_json::Value>) -> (r: Option<String>)
    ensures
        r is Some,
        r matches Some(text) ==> text@ == json_text_of(json_fields(*object)),
{
    serde_json::to_string(object).ok()
}

/// Calls `bs58::encode` and `EncodeBuilder::into_string`. The result
/// is a function of the text alone; the contract names it `base58_of`
/// and claims nothing more.
#[verifier::external_body]
fn base58(text: &str) -> (r: String)
    ensures
        r@ == base58_of(text@),
{
    bs58::encode(text).into_string()
}

/// What an invite holds: the id of the client, its signing key, and
/// the public key of the server.
pub open spec fn invite_fields(
    id: Seq<char>,
    signing_key_pem: Seq<char>,
    server_pk: Seq<char>,
) -> Map<Seq<char>, Seq<char>> {
    no_fields().insert("id"@, id).insert("sk"@, signing_key_pem).insert("server_pk"@, server_pk)
}

/// The invite token that lets the client `id` connect: the Base58
/// encoding of a JSON object that names the client, its signing key
/// and the public key of the server.
pub open spec fn invite_token_of(id: Seq<char>, signing_key_pem: Seq<char>, server_pk: Seq<char>) -> Seq<
    char,
> {
    base58_of(json_text_of(invite_fields(id, signing_key_pem, server_pk)))
}

/// The invite token that lets the client `id` connect. The encoding
/// does not fail.
pub fn invite_token(id: &str, signing_key_pem: &str, server_pk: &str) -> (r: Result<String, Error>)
    ensures
        r matches Ok(token) && token@ == invite_token_of(id@, signing_key_pem@, server_pk@),
{
    let mut object = json_object();
    json_insert(&mut object, "id", id);
    json_insert(&mut object, "sk", signing_key_pem);
    json_insert(&mut object, "server_pk", server_pk);
    match json_to_string(&object) {
        Some(text) => Ok(base58(text.as_str())),
        None => Err(Error::key("Failed to encode the invite")),
    }
}

/// A key pair that was made for a client, in PEM.
#[derive(Debug)]
pub struct ClientKeyPair {
    pub signing_key_pem: String,
    pub public_key_pem: String,
}

/// What [`new_client_key_pair`] answers once the PEM of both halves
/// was asked for.
pub fn client_key_pair_from(signing_key_pem: Option<String>, public_key_pem: Option<String>) -> (r:
    Result<ClientKeyPair, Error>)
    ensures
        match (signing_key_pem, public_key_pem) {
            (Some(signing), Some(public)) => r matches Ok(pair) && pair.signing_key_pem@
                == signing@ && pair.public_key_pem@ == public@,
            (None, _) => r matches Err(e) && e@ == key_error(
                "Failed to generate PEM for client signing key"@,
            ),
            (Some(_), None) => r matches Err(e) && e@ == key_error(
                "Failed to generate PEM for client public key"@,
            ),
        },
{
    match signing_key_pem {
        None => Err(Error::key("Failed to generate PEM for client signing key")),
        Some(signing_key_pem) => match public_key_pem {
            None => Err(Error::key("Failed to generate PEM for client public key")),
            Some(public_key_pem) => Ok(ClientKeyPair { signing_key_pem, public_key_pem }),
        },
    }
}

/// A fresh key pair for a client, in PEM.
pub fn new_client_key_pair() -> (r: Result<ClientKeyPair, Error>)
    ensures
        r matches Err(e) ==> e@ == key_error("Failed to generate PEM for client signing key"@)
            || e@ == key_error("Failed to generate PEM for client public key"@),
{
    let key_pair = generate_key_pair();
    let signing_key_pem = key_pair_pem(&key_pair);
    let public = public_key(&key_pair);
    client_key_pair_from(signing_key_pem, public_key_pem(&public))
}

impl Config {
    #[verifier::type_invariant]
    spec fn inv(self) -> bool {
        distinct_ids(key_views(self.authorized_keys@))
    }

    /// The file that holds the configuration, in the directory `dirs`
    /// names for it.
    pub fn config_path_in(dirs: &ProjectDirs) -> (r: String)
        ensures
            r@ == dirs.config_dir@ + "/config.toml"@,
    {
        let mut path = dirs.config_dir.clone();
        path.append("/config.toml");
        path
    }

    /// The file that holds the configuration of this application.
    pub fn config_path() -> (r: Result<String, Error>)
        ensures
            match r {
                Ok(path) => exists|config_dir: Seq<char>| path@ == config_dir + "/config.toml"@,
                Err(e) => e@ == directories_unavailable_error(),
            },
    {
        match directories() {
            Ok(dirs) => {
                let path = Config::config_path_in(&dirs);
                assert(path@ == dirs.config_dir@ + "/config.toml"@);
                Ok(path)
            },
            Err(e) => Err(e),
        }
    }

    /// The authorized keys, in the order in which they were authorized.
    pub fn authorized_keys(&self) -> (r: &Vec<ClientKey>)
        ensures
            key_views(r@) == self@,
            distinct_ids(self@),
    {
        proof {
            use_type_invariant(self);
        }
        &self.authorized_keys
    }

    /// The key with the id `id`, where it is authorized.
    pub fn get(&self, id: &str) -> (r: Option<&ClientKey>)
        ensures
            distinct_ids(self@),
            match r {
                Some(key) => exists|i: int| 0 <= i < self@.len() && self@[i] == key@ && key@.id == id@,
                None => forall|i: int| 0 <= i < self@.len() ==> (#[trigger] self@[i]).id != id@,
            },
    {
        proof {
            use_type_invariant(self);
        }
        let mut i: usize = 0;
        while i < self.authorized_keys.len()
            invariant
                i <= self.authorized_keys.len(),
                distinct_ids(self@),
                forall|j: int| 0 <= j < i ==> (#[trigger] self@[j]).id != id@,
            decreases self.authorized_keys.len() - i,
        {
            assert(self@[i as int] == self.authorized_keys@[i as int]@);
            if same_text(self.authorized_keys[i].id.as_str(), id) {
                return Some(&self.authorized_keys[i]);
            }
            i += 1;
        }
        None
    }

    /// Authorizes `key`. Fails, and changes nothing, where a key with
    /// its id is authorized already.
    pub fn authorize(&mut self, key: ClientKey) -> (r: Result<(), Error>)
        ensures
            distinct_ids(final(self)@),
            match r {
                Ok(_) => {
                    &&& forall|i: int| 0 <= i < old(self)@.len() ==> (#[trigger] old(self)@[i]).id
                        != key@.id
                    &&& final(self)@ == old(self)@.push(key@)
                },
                Err(e) => {
                    &&& exists|i: int| 0 <= i < old(self)@.len() && (#[trigger] old(self)@[i]).id
                        == key@.id
                    &&& final(self)@ == old(self)@
                    &&& e@ == key_error("authorized_keys hash collision"@)
                },
            },
    {
        proof {
            use_type_invariant(&*self);
        }
        match self.get(key.id.as_str()) {
            Some(_) => Err(Error::key("authorized_keys hash collision")),
            None => {
                let ghost before = self.authorized_keys@;
                let mut keys: Vec<ClientKey> = Vec::new();
                std::mem::swap(&mut self.authorized_keys, &mut keys);
                keys.push(key);
                proof {
                    assert(key_views(before.push(key)) =~= key_views(before).push(key@));
                }
                std::mem::swap(&mut self.authorized_keys, &mut keys);
                Ok(())
            },
        }
    }

    /// Withdraws the key with the id `id`, where it is authorized, and
    /// says whether it was. The other keys stay, in their order.
    pub fn remove(&mut self, id: &str) -> (r: bool)
        ensures
            distinct_ids(final(self)@),
            r ==> exists|i: int|
                0 <= i < old(self)@.len() && (#[trigger] old(self)@[i]).id == id@ && final(self)@
                    == old(self)@.remove(i),
            !r ==> final(self)@ == old(self)@ && forall|i: int|
                0 <= i < old(self)@.len() ==> (#[trigger] old(self)@[i]).id != id@,
            forall|i: int| 0 <= i < final(self)@.len() ==> (#[trigger] final(self)@[i]).id != id@,
    {
        proof {
            use_type_invariant(&*self);
        }
        let mut i: usize = 0;
        while i < self.authorized_keys.len()
            invariant
                i <= self.authorized_keys.len(),
                self@ == old(self)@,
                self.authorized_keys@ == old(self).authorized_keys@,
                distinct_ids(self@),
                forall|j: int| 0 <= j < i ==> (#[trigger] self@[j]).id != id@,
            decreases self.authorized_keys.len() - i,
        {
            assert(self@[i as int] == self.authorized_keys@[i as int]@);
            if same_text(self.authorized_keys[i].id.as_str(), id) {
                let ghost before = self.authorized_keys@;
                let mut keys: Vec<ClientKey> = Vec::new();
                std::mem::swap(&mut self.authorized_keys, &mut keys);
                keys.remove(i);
                proof {
                    assert(key_views(before.remove(i as int)) =~= key_views(before).remove(
                        i as int,
                    ));
                    let after = key_views(before).remove(i as int);
                    assert forall|a: int, b: int|
                        0 <= a < after.len() && 0 <= b < after.len() && a != b implies (
                    #[trigger] after[a]).id != (#[trigger] after[b]).id by {
                        let a0 = if a < i { a } else { a + 1 };
                        let b0 = if b < i { b } else { b + 1 };
                        assert(after[a] == key_views(before)[a0]);
                        assert(after[b] == key_views(before)[b0]);
                    }
                    assert forall|a: int| 0 <= a < after.len() implies (#[trigger] after[a]).id
                        != id@ by {
                        let a0 = if a < i { a } else { a + 1 };
                        assert(after[a] == key_views(before)[a0]);
                        assert(key_views(before)[i as int].id == id@);
                    }
                }
                std::mem::swap(&mut self.authorized_keys, &mut keys);
                return true;
            }
            i += 1;
        }
        false
    }

    /// Authorizes a new key for the client `label` under the id `id`
    /// and returns, with the key, the invite token that the client
    /// connects with. Fails, and changes nothing, where the id is
    /// taken.
    pub fn add_key_with(
        &mut self,
        server_pk: &str,
        label: String,
        id: String,
        key_pair: ClientKeyPair,
    ) -> (r: Result<(String, ClientKey), Error>)
        ensures
            distinct_ids(final(self)@),
            match r {
                Ok(added) => {
                    &&& added.1@ == (ClientKeyView {
                        id: id@,
                        label: label@,
                        public_key_pem: key_pair.public_key_pem@,
                    })
                    &&& added.0@ == invite_token_of(id@, key_pair.signing_key_pem@, server_pk@)
                    &&& final(self)@ == old(self)@.push(added.1@)
                    &&& forall|i: int| 0 <= i < old(self)@.len() ==> (#[trigger] old(self)@[i]).id
                        != id@
                },
                Err(e) => {
                    &&& final(self)@ == old(self)@
                    &&& exists|i: int| 0 <= i < old(self)@.len() && (#[trigger] old(self)@[i]).id
                        == id@
                    &&& e@ == key_error("authorized_keys hash collision"@)
                },
            },
    {
        if self.get(id.as_str()).is_some() {
            return Err(Error::key("authorized_keys hash collision"));
        }
        let token = match invite_token(
            id.as_str(),
            key_pair.signing_key_pem.as_str(),
            server_pk,
        ) {
            Ok(token) => token,
            Err(e) => {
                return Err(e);
            },
        };
        let client_key = ClientKey { id, label, public_key_pem: key_pair.public_key_pem };
        match self.authorize(client_key.clone()) {
            Ok(_) => Ok((token, client_key)),
            Err(e) => Err(e),
        }
    }

    /// Authorizes a new key for the client `label`, under a fresh id,
    /// and returns, with the key, the invite token that the client
    /// connects with. `server_pk` is the public key by which the client
    /// will know the server. Fails, and changes nothing, where no key
    /// can be made or the id is taken.
    pub fn add_key(&mut self, server_pk: &str, label: String) -> (r: Result<
        (String, ClientKey),
        Error,
    >)
        ensures
            distinct_ids(final(self)@),
            match r {
                Ok(added) => {
                    &&& added.1@.label == label@
                    &&& final(self)@ == old(self)@.push(added.1@)
                    &&& exists|signing_key_pem: Seq<char>|
                        added.0@ == #[trigger] invite_token_of(
                            added.1@.id,
                            signing_key_pem,
                            server_pk@,
                        )
                },
                Err(e) => final(self)@ == old(self)@ && e@.kind == crate::error::ErrorKind::KeyError,
            },
    {
        proof {
            use_type_invariant(&*self);
        }
        let id = new_id();
        match new_client_key_pair() {
            Ok(key_pair) => {
                let ghost signing = key_pair.signing_key_pem@;
                let r = self.add_key_with(server_pk, label, id, key_pair);
                proof {
                    if r is Ok {
                        assert(r->Ok_0.0@ == invite_token_of(r->Ok_0.1@.id, signing, server_pk@));
                    }
                }
                r
            },
            Err(e) => Err(e),
        }
    }
}

} // verus!
