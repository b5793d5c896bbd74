//! The `b2_list_buckets` call: what is sent and what comes back.

use crate::api::b2_authorize_account::Response as Authorization;
use crate::api::{
    is_success, ApiError, Credentials, CredentialsView, HttpRequest, HttpRequestView, Method,
    OutgoingRequest, Reply,
};
use crate::json::{
    blob_at, decoded, field, json_model, json_string_literal, list_field, optional_list_field,
    quoted, viewed_list, views, FromJson, Json,
};
use crate::session::{Session, SessionErrorView, SessionView};
use crate::text::same;
use serde_json::Value;
use vstd::prelude::*;
use vstd::string::StringExecFns;

verus! {

/// The kind of a bucket, and the filter value that selects buckets of a kind.
#[derive(Clone, Copy, Debug, PartialEq, Eq, Structural)]
pub enum BucketType {
    /// Every kind of bucket; a filter value only.
    All,
    /// An authorization token is needed to download the files.
    AllPrivate,
    /// Anybody can download the files.
    AllPublic,
    Restricted,
    /// A private bucket that holds snapshots.
    Snapshot,
    Shared,
    /// A bucket type that this library does not know.
    Other,
}

impl BucketType {
    /// The bucket type that a name on the wire stands for. Every name that is
    /// not known stands for `Other`.
    pub open spec fn of_name(name: Seq<char>) -> BucketType {
        if name == "all"@ {
            BucketType::All
        } else if name == "allPrivate"@ {
            BucketType::AllPrivate
        } else if name == "allPublic"@ {
            BucketType::AllPublic
        } else if name == "restricted"@ {
            BucketType::Restricted
        } else if name == "snapshot"@ {
            BucketType::Snapshot
        } else if name == "shared"@ {
            BucketType::Shared
        } else {
            BucketType::Other
        }
    }

    /// The name under which a bucket type goes on the wire. `Other` goes out as
    /// `other`, whatever name it came in under.
    pub open spec fn wire_name(self) -> Seq<char> {
        match self {
            BucketType::All => "all"@,
            BucketType::AllPrivate => "allPrivate"@,
            BucketType::AllPublic => "allPublic"@,
            BucketType::Restricted => "restricted"@,
            BucketType::Snapshot => "snapshot"@,
            BucketType::Shared => "shared"@,
            BucketType::Other => "other"@,
        }
    }

    /// Whether a name is one of the known ones.
    pub open spec fn is_known(name: Seq<char>) -> bool {
        ||| name == "all"@
        ||| name == "allPrivate"@
        ||| name == "allPublic"@
        ||| name == "restricted"@
        ||| name == "snapshot"@
        ||| name == "shared"@
    }

    /// Reads a bucket type from its name on the wire.
    pub fn from_name(name: &str) -> (r: BucketType)
        ensures
            r == Self::of_name(name@),
    {
        if same(name, "all") {
            BucketType::All
        } else if same(name, "allPrivate") {
            BucketType::AllPrivate
        } else if same(name, "allPublic") {
            BucketType::AllPublic
        } else if same(name, "restricted") {
            BucketType::Restricted
        } else if same(name, "snapshot") {
            BucketType::Snapshot
        } else if same(name, "shared") {
            BucketType::Shared
        } else {
            BucketType::Other
        }
    }

    /// The name under which the bucket type goes on the wire.
    pub fn name(&self) -> (name: &'static str)
        ensures
            name@ == self.wire_name(),
    {
        match self {
            BucketType::All => "all",
            BucketType::AllPrivate => "allPrivate",
            BucketType::AllPublic => "allPublic",
            BucketType::Restricted => "restricted",
            BucketType::Snapshot => "snapshot",
            BucketType::Shared => "shared",
            BucketType::Other => "other",
        }
    }

    /// A string that is not one of the known names reads as `Other`, never as a
    /// failure, and `Other` is written as `other`. So reading and writing back
    /// does not return an unknown name: it is lost, and `other` stands in its
    /// place.
    pub proof fn unknown_name_reads_as_other(name: Seq<char>)
        requires
            !Self::is_known(name),
        ensures
            Self::of_name(name) == BucketType::Other,
            <Self as FromJson>::of_json(Json::Text(name)) == Some(BucketType::Other),
            Self::of_name(name).wire_name() == "other"@,
            name != "other"@ ==> Self::of_name(name).wire_name() != name,
    {
    }

    /// Every string reads as a value: there is no name that fails.
    pub proof fn every_name_reads(name: Seq<char>)
        ensures
            <Self as FromJson>::of_json(Json::Text(name)) == Some(Self::of_name(name)),
    {
    }

    /// Writing a bucket type and reading the name back gives the same bucket
    /// type.
    pub proof fn name_reads_back(value: BucketType)
        ensures
            Self::of_name(value.wire_name()) == value,
    {
        reveal_strlit("all");
        reveal_strlit("allPrivate");
        reveal_strlit("allPublic");
        reveal_strlit("restricted");
        reveal_strlit("snapshot");
        reveal_strlit("shared");
        reveal_strlit("other");
        assert("all"@.len() == 3);
        assert("allPrivate"@.len() == 10);
        assert("allPublic"@.len() == 9);
        assert("restricted"@.len() == 10);
        assert("snapshot"@.len() == 8);
        assert("shared"@.len() == 6);
        assert("other"@.len() == 5);
        assert("allPrivate"@[0] == 'a');
        assert("restricted"@[0] == 'r');
    }
}

impl View for BucketType {
    type V = BucketType;

    open spec fn view(&self) -> BucketType {
        *self
    }
}

impl FromJson for BucketType {
    /// A string reads as the bucket type that it names; anything else is no
    /// bucket type.
    open spec fn of_json(doc: Json) -> Option<BucketType> {
        match doc.text() {
            Some(name) => Some(BucketType::of_name(name)),
            None => None,
        }
    }

    fn from_json(doc: &Value) -> (r: Option<BucketType>) {
        match doc.as_str() {
            Some(name) => Some(BucketType::from_name(name)),
            None => None,
        }
    }
}

/// The Object Lock settings of a bucket.
#[derive(Debug, PartialEq, Eq)]
pub struct FileLockConfigurationValue {
    /// Whether Object Lock is enabled on the bucket.
    pub is_file_lock_enabled: bool,
}

/// What a [`FileLockConfigurationValue`] holds.
pub struct FileLockConfigurationValueView {
    pub is_file_lock_enabled: bool,
}

impl View for FileLockConfigurationValue {
    type V = FileLockConfigurationValueView;

    open spec fn view(&self) -> FileLockConfigurationValueView {
        FileLockConfigurationValueView { is_file_lock_enabled: self.is_file_lock_enabled }
    }
}

impl FromJson for FileLockConfigurationValue {
    /// The object has a boolean under `isFileLockEnabled`. Other members are
    /// passed over.
    open spec fn of_json(doc: Json) -> Option<FileLockConfigurationValueView> {
        match doc.field::<bool>("isFileLockEnabled"@) {
            Some(is_file_lock_enabled) => Some(
                FileLockConfigurationValueView { is_file_lock_enabled },
            ),
            None => None,
        }
    }

    fn from_json(doc: &Value) -> (r: Option<FileLockConfigurationValue>) {
        let is_file_lock_enabled = field::<bool>(doc, "isFileLockEnabled")?;
        Some(FileLockConfigurationValue { is_file_lock_enabled })
    }
}

/// The Object Lock configuration of a bucket, as far as the key may read it.
#[derive(Debug, PartialEq, Eq)]
pub struct FileLockConfiguration {
    /// Whether the key may read the settings.
    pub is_client_authorized_to_read: bool,
    /// The settings.
    pub value: FileLockConfigurationValue,
}

/// What a [`FileLockConfiguration`] holds.
pub struct FileLockConfigurationView {
    pub is_client_authorized_to_read: bool,
    pub value: FileLockConfigurationValueView,
}

impl View for FileLockConfiguration {
    type V = FileLockConfigurationView;

    open spec fn view(&self) -> FileLockConfigurationView {
        FileLockConfigurationView {
            is_client_authorized_to_read: self.is_client_authorized_to_read,
            value: self.value@,
        }
    }
}

impl FromJson for FileLockConfiguration {
    /// The object has a boolean under `isClientAuthorizedToRead` and a settings
    /// record under `value`. Other members are passed over.
    open spec fn of_json(doc: Json) -> Option<FileLockConfigurationView> {
        match (
            doc.field::<bool>("isClientAuthorizedToRead"@),
            doc.field::<FileLockConfigurationValue>("value"@),
        ) {
            (Some(is_client_authorized_to_read), Some(value)) => Some(
                FileLockConfigurationView { is_client_authorized_to_read, value },
            ),
            _ => None,
        }
    }

    fn from_json(doc: &Value) -> (r: Option<FileLockConfiguration>) {
        let is_client_authorized_to_read = field::<bool>(doc, "isClientAuthorizedToRead")?;
        let value = field::<FileLockConfigurationValue>(doc, "value")?;
        Some(FileLockConfiguration { is_client_authorized_to_read, value })
    }
}

/// The encryption settings that new files of a bucket get.
#[derive(Debug, PartialEq, Eq)]
pub struct ServerSideEncryptionValue {
    /// The encryption algorithm.
    pub algorithm: String,
    /// The encryption mode.
    pub mode: String,
}

/// What a [`ServerSideEncryptionValue`] holds.
pub struct ServerSideEncryptionValueView {
    pub algorithm: Seq<char>,
    pub mode: Seq<char>,
}

impl View for ServerSideEncryptionValue {
    type V = ServerSideEncryptionValueView;

    open spec fn view(&self) -> ServerSideEncryptionValueView {
        ServerSideEncryptionValueView { algorithm: self.algorithm@, mode: self.mode@ }
    }
}

impl FromJson for ServerSideEncryptionValue {
    /// The object has strings under `algorithm` and `mode`. Other members are
    /// passed over.
    open spec fn of_json(doc: Json) -> Option<ServerSideEncryptionValueView> {
        match (doc.field::<String>("algorithm"@), doc.field::<String>("mode"@)) {
            (Some(algorithm), Some(mode)) => Some(
                ServerSideEncryptionValueView { algorithm, mode },
            ),
            _ => None,
        }
    }

    fn from_json(doc: &Value) -> (r: Option<ServerSideEncryptionValue>) {
        let algorithm = field::<String>(doc, "algorithm")?;
        let mode = field::<String>(doc, "mode")?;
        Some(ServerSideEncryptionValue { algorithm, mode })
    }
}

/// The default Server-Side Encryption settings of a bucket, as far as the key
/// may read them.
#[derive(Debug, PartialEq, Eq)]
pub struct ServerSideEncryption {
    /// Whether the key may read the settings.
    pub is_client_authorized_to_read: bool,
    /// The settings.
    pub value: ServerSideEncryptionValue,
}

/// What a [`ServerSideEncryption`] holds.
pub struct ServerSideEncryptionView {
    pub is_client_authorized_to_read: bool,
    pub value: ServerSideEncryptionValueView,
}

impl View for ServerSideEncryption {
    type V = ServerSideEncryptionView;

    open spec fn view(&self) -> ServerSideEncryptionView {
        ServerSideEncryptionView {
            is_client_authorized_to_read: self.is_client_authorized_to_read,
            value: self.value@,
        }
    }
}

impl FromJson for ServerSideEncryption {
    /// The object has a boolean under `isClientAuthorizedToRead` and a settings
    /// record under `value`. Other members are passed over.
    open spec fn of_json(doc: Json) -> Option<ServerSideEncryptionView> {
        match (
            doc.field::<bool>("isClientAuthorizedToRead"@),
            doc.field::<ServerSideEncryptionValue>("value"@),
        ) {
            (Some(is_client_authorized_to_read), Some(value)) => Some(
                ServerSideEncryptionView { is_client_authorized_to_read, value },
            ),
            _ => None,
        }
    }

    fn from_json(doc: &Value) -> (r: Option<ServerSideEncryption>) {
        let is_client_authorized_to_read = field::<bool>(doc, "isClientAuthorizedToRead")?;
        let value = field::<ServerSideEncryptionValue>(doc, "value")?;
        Some(ServerSideEncryption { is_client_authorized_to_read, value })
    }
}

/// When the files of a bucket are hidden and deleted by themselves.
#[derive(Debug, PartialEq, Eq)]
pub struct LifecycleRules {
    /// After how many days a hidden file is deleted.
    pub days_from_hiding_to_deleting: usize,
    /// After how many days an uploaded file is hidden.
    pub days_from_uploading_to_hiding: usize,
    /// After how many days an unfinished large file is cancelled.
    pub days_from_starting_to_canceling_unfinished_large_files: usize,
    /// The files that the rule applies to: those whose names begin with this
    /// prefix.
    pub file_name_prefix: String,
}

/// What a [`LifecycleRules`] holds.
pub struct LifecycleRulesView {
    pub days_from_hiding_to_deleting: usize,
    pub days_from_uploading_to_hiding: usize,
    pub days_from_starting_to_canceling_unfinished_large_files: usize,
    pub file_name_prefix: Seq<char>,
}

impl View for LifecycleRules {
    type V = LifecycleRulesView;

    open spec fn view(&self) -> LifecycleRulesView {
        LifecycleRulesView {
            days_from_hiding_to_deleting: self.days_from_hiding_to_deleting,
            days_from_uploading_to_hiding: self.days_from_uploading_to_hiding,
            days_from_starting_to_canceling_unfinished_large_files:
                self.days_from_starting_to_canceling_unfinished_large_files,
            file_name_prefix: self.file_name_prefix@,
        }
    }
}

impl FromJson for LifecycleRules {
    /// The object has sizes under `daysFromHidingToDeleting`,
    /// `daysFromUploadingToHiding` and
    /// `daysFromStartingToCancelingUnfinishedLargeFiles`, and a string under
    /// `fileNamePrefix`. Other members are passed over.
    open spec fn of_json(doc: Json) -> Option<LifecycleRulesView> {
        match (
            doc.field::<usize>("daysFromHidingToDeleting"@),
            doc.field::<usize>("daysFromUploadingToHiding"@),
            doc.field::<usize>("daysFromStartingToCancelingUnfinishedLargeFiles"@),
            doc.field::<String>("fileNamePrefix"@),
        ) {
            (
                Some(days_from_hiding_to_deleting),
                Some(days_from_uploading_to_hiding),
                Some(days_from_starting_to_canceling_unfinished_large_files),
                Some(file_name_prefix),
            ) => Some(
                LifecycleRulesView {
                    days_from_hiding_to_deleting,
                    days_from_uploading_to_hiding,
                    days_from_starting_to_canceling_unfinished_large_files,
                    file_name_prefix,
                },
            ),
            _ => None,
        }
    }

    fn from_json(doc: &Value) -> (r: Option<LifecycleRules>) {
        let days_from_hiding_to_deleting = field::<usize>(doc, "daysFromHidingToDeleting")?;
        let days_from_uploading_to_hiding = field::<usize>(doc, "daysFromUploadingToHiding")?;
        let days_from_starting_to_canceling_unfinished_large_files = field::<usize>(
            doc,
            "daysFromStartingToCancelingUnfinishedLargeFiles",
        )?;
        let file_name_prefix = field::<String>(doc, "fileNamePrefix")?;
        Some(
            LifecycleRules {
                days_from_hiding_to_deleting,
                days_from_uploading_to_hiding,
                days_from_starting_to_canceling_unfinished_large_files,
                file_name_prefix,
            },
        )
    }
}

/// A bucket of the account.
#[derive(Debug, PartialEq, Eq)]
pub struct Bucket {
    /// The account that the bucket is in.
    pub account_id: String,
    /// The unique identifier of the bucket.
    pub bucket_id: String,
    /// The unique name of the bucket.
    pub bucket_name: String,
    /// The kind of the bucket.
    pub bucket_type: BucketType,
    /// The user data stored with this bucket, as the server sent it.
    pub bucket_info: Value,
    /// The CORS rules of the bucket, as the server sent them.
    pub cors_rules: Value,
    /// The Object Lock configuration of the bucket.
    pub file_lock_configuration: FileLockConfiguration,
    /// The encryption settings that new files of the bucket get.
    pub default_server_side_encryption: ServerSideEncryption,
    /// The lifecycle rules of the bucket.
    pub lifecycle_rules: LifecycleRules,
    /// The replication rules of the bucket, as the server sent them.
    pub replication_configuration: Value,
    /// How often the settings of the bucket were changed.
    pub revision: usize,
    /// The options that are set on the bucket.
    pub options: Option<Vec<String>>,
}

/// What a [`Bucket`] holds.
pub struct BucketView {
    pub account_id: Seq<char>,
    pub bucket_id: Seq<char>,
    pub bucket_name: Seq<char>,
    pub bucket_type: BucketType,
    pub bucket_info: Json,
    pub cors_rules: Json,
    pub file_lock_configuration: FileLockConfigurationView,
    pub default_server_side_encryption: ServerSideEncryptionView,
    pub lifecycle_rules: LifecycleRulesView,
    pub replication_configuration: Json,
    pub revision: usize,
    pub options: Option<Seq<Seq<char>>>,
}

impl View for Bucket {
    type V = BucketView;

    open spec fn view(&self) -> BucketView {
        BucketView {
            account_id: self.account_id@,
            bucket_id: self.bucket_id@,
            bucket_name: self.bucket_name@,
            bucket_type: self.bucket_type@,
            bucket_info: json_model(self.bucket_info),
            cors_rules: json_model(self.cors_rules),
            file_lock_configuration: self.file_lock_configuration@,
            default_server_side_encryption: self.default_server_side_encryption@,
            lifecycle_rules: self.lifecycle_rules@,
            replication_configuration: json_model(self.replication_configuration),
            revision: self.revision,
            options: viewed_list(self.options),
        }
    }
}

impl FromJson for Bucket {
    /// The object has strings under `accountId`, `bucketId` and `bucketName`, a
    /// bucket type under `bucketType`, members of any kind under `bucketInfo`,
    /// `corsRules` and `replicationConfiguration`, records under
    /// `fileLockConfiguration`, `defaultServerSideEncryption` and
    /// `lifecycleRules`, and a size under `revision`. `options` may be vacant,
    /// and holds an array of strings where it is not. Other members are passed
    /// over.
    open spec fn of_json(doc: Json) -> Option<BucketView> {
        match (
            doc.field::<String>("accountId"@),
            doc.field::<String>("bucketId"@),
            doc.field::<String>("bucketName"@),
            doc.field::<BucketType>("bucketType"@),
            doc.member("bucketInfo"@),
            doc.member("corsRules"@),
            doc.field::<FileLockConfiguration>("fileLockConfiguration"@),
            doc.field::<ServerSideEncryption>("defaultServerSideEncryption"@),
            doc.field::<LifecycleRules>("lifecycleRules"@),
            doc.member("replicationConfiguration"@),
            doc.field::<usize>("revision"@),
            doc.optional_list_field::<String>("options"@),
        ) {
            (
                Some(account_id),
                Some(bucket_id),
                Some(bucket_name),
                Some(bucket_type),
                Some(bucket_info),
                Some(cors_rules),
                Some(file_lock_configuration),
                Some(default_server_side_encryption),
                Some(lifecycle_rules),
                Some(replication_configuration),
                Some(revision),
                Some(options),
            ) => Some(
                BucketView {
                    account_id,
                    bucket_id,
                    bucket_name,
                    bucket_type,
                    bucket_info,
                    cors_rules,
                    file_lock_configuration,
                    default_server_side_encryption,
                    lifecycle_rules,
                    replication_configuration,
                    revision,
                    options,
                },
            ),
            _ => None,
        }
    }

    fn from_json(doc: &Value) -> (r: Option<Bucket>) {
        let account_id = field::<String>(doc, "accountId")?;
        let bucket_id = field::<String>(doc, "bucketId")?;
        let bucket_name = field::<String>(doc, "bucketName")?;
        let bucket_type = field::<BucketType>(doc, "bucketType")?;
        let bucket_info = blob_at(doc, "bucketInfo")?;
        let cors_rules = blob_at(doc, "corsRules")?;
        let file_lock_configuration = field::<FileLockConfiguration>(doc, "fileLockConfiguration")?;
        let default_server_side_encryption = field::<ServerSideEncryption>(
            doc,
            "defaultServerSideEncryption",
        )?;
        let lifecycle_rules = field::<LifecycleRules>(doc, "lifecycleRules")?;
        let replication_configuration = blob_at(doc, "replicationConfiguration")?;
        let revision = field::<usize>(doc, "revision")?;
        let options = optional_list_field::<String>(doc, "options")?;
        Some(
            Bucket {
                account_id,
                bucket_id,
                bucket_name,
                bucket_type,
                bucket_info,
                cors_rules,
                file_lock_configuration,
                default_server_side_encryption,
                lifecycle_rules,
                replication_configuration,
                revision,
                options,
            },
        )
    }
}

/// What the server returns: the buckets that the request selected.
#[derive(Debug, PartialEq, Eq)]
pub struct Response {
    /// The buckets.
    pub buckets: Vec<Bucket>,
}

/// What a [`Response`] holds.
pub struct ResponseView {
    pub buckets: Seq<BucketView>,
}

impl View for Response {
    type V = ResponseView;

    open spec fn view(&self) -> ResponseView {
        ResponseView { buckets: views(self.buckets@) }
    }
}

impl FromJson for Response {
    /// The object has an array of buckets under `buckets`. Other members are
    /// passed over.
    open spec fn of_json(doc: Json) -> Option<ResponseView> {
        match doc.list_field::<Bucket>("buckets"@) {
            Some(buckets) => Some(ResponseView { buckets }),
            None => None,
        }
    }

    fn from_json(doc: &Value) -> (r: Option<Response>) {
        let buckets = list_field::<Bucket>(doc, "buckets")?;
        Some(Response { buckets })
    }
}

/// What the call sends: the account, and what narrows the list down.
#[derive(Debug, PartialEq, Eq)]
pub struct Request {
    /// The account whose buckets are listed.
    pub account_id: String,
    /// When present, the list holds this bucket alone, or nothing.
    pub bucket_id: Option<String>,
    /// When present, the list holds the bucket of this name alone, or
    /// nothing.
    pub bucket_name: Option<String>,
    /// When present, the list holds buckets of these kinds alone.
    pub bucket_types: Option<Vec<BucketType>>,
}

/// The literal of a string that may be there; `null` where it is not.
pub open spec fn literal_or_null(s: Option<String>) -> Seq<char> {
    match s {
        Some(s) => json_string_literal(s@),
        None => "null"@,
    }
}

/// The literals of the names of bucket types, with a comma between one and
/// the next.
pub open spec fn type_names(types: Seq<BucketType>) -> Seq<char>
    decreases types.len(),
{
    if types.len() == 0 {
        Seq::empty()
    } else if types.len() == 1 {
        json_string_literal(types[0].wire_name())
    } else {
        type_names(types.drop_last()) + ","@ + json_string_literal(types.last().wire_name())
    }
}

/// The array of the names of bucket types that may be there; `null` where it
/// is not.
pub open spec fn types_or_null(types: Option<Vec<BucketType>>) -> Seq<char> {
    match types {
        Some(types) => "["@ + type_names(types@) + "]"@,
        None => "null"@,
    }
}

impl Request {
    /// The compact JSON text of the request: an object with the members
    /// `accountId`, `bucketId`, `bucketName` and `bucketTypes`, in this
    /// order. A member that is not given is written as `null`.
    pub open spec fn json_text(&self) -> Seq<char> {
        "{\"accountId\":"@ + json_string_literal(self.account_id@)
            + ",\"bucketId\":"@ + literal_or_null(self.bucket_id)
            + ",\"bucketName\":"@ + literal_or_null(self.bucket_name)
            + ",\"bucketTypes\":"@ + types_or_null(self.bucket_types)
            + "}"@
    }

    /// Writes the request as compact JSON text.
    pub fn to_json(&self) -> (text: String)
        ensures
            text@ == self.json_text(),
    {
        let mut text = String::from_str("{\"accountId\":");
        text.append(quoted(self.account_id.as_str()).as_str());
        text.append(",\"bucketId\":");
        write_literal_or_null(&mut text, &self.bucket_id);
        text.append(",\"bucketName\":");
        write_literal_or_null(&mut text, &self.bucket_name);
        text.append(",\"bucketTypes\":");
        write_types_or_null(&mut text, &self.bucket_types);
        text.append("}");
        text
    }
}

/// Appends the literal of a string that may be there, or `null`.
fn write_literal_or_null(text: &mut String, s: &Option<String>)
    ensures
        final(text)@ == old(text)@ + literal_or_null(*s),
{
    match s {
        Some(s) => text.append(quoted(s.as_str()).as_str()),
        None => text.append("null"),
    }
}

/// Appends the array of the names of bucket types that may be there, or
/// `null`.
fn write_types_or_null(text: &mut String, types: &Option<Vec<BucketType>>)
    ensures
        final(text)@ == old(text)@ + types_or_null(*types),
{
    match types {
        Some(types) => {
            text.append("[");
            let ghost opened = text@;
            let mut i: usize = 0;
            while i < types.len()
                invariant
                    i <= types.len(),
                    text@ == opened + type_names(types@.take(i as int)),
                decreases types.len() - i,
            {
                if i > 0 {
                    text.append(",");
                }
                text.append(quoted(types[i].name()).as_str());
                assert(types@.take(i + 1).drop_last() == types@.take(i as int));
                i += 1;
            }
            assert(types@.take(types.len() as int) == types@);
            text.append("]");
        },
        None => text.append("null"),
    }
}

impl<H> OutgoingRequest<Request> for Session<H> {
    type Response = Response;

    type Error = ApiError;

    /// The request goes to the storage API of the session in a `POST`, with
    /// the token of the session as its authorization and the JSON text of
    /// `body` as its body.
    open spec fn request_of(&self, body: &Request) -> HttpRequestView {
        HttpRequestView {
            method: Method::Post,
            url: self@.authorization.api_info.storage_api.api_url + "/b2api/v3/b2_list_buckets"@,
            credentials: CredentialsView::Token {
                token: self@.authorization.authorization_token,
            },
            body: Some(body.json_text()),
        }
    }

    fn request(&self, body: &Request) -> (r: HttpRequest) {
        let mut url = self.storage_api_info().api_url.clone();
        url.append("/b2api/v3/b2_list_buckets");
        HttpRequest {
            method: Method::Post,
            url,
            credentials: Credentials::Token { token: self.token().to_owned() },
            body: Some(body.to_json()),
        }
    }
}

/// A session sends what one authorization gave it. Where an exchange with the
/// authorization endpoint made the session, the token of its requests and the
/// address they go to are both those of the body of that one reply.
pub proof fn session_sends_what_its_authorization_gave<H, T>(
    http_client: H,
    exchange: Result<Reply, T>,
    session: Session<H>,
    body: Request,
)
    requires
        Session::of_exchange(http_client, exchange) == Ok::<SessionView<H>, SessionErrorView>(
            session@,
        ),
    ensures
        ({
            &&& exchange matches Ok(reply)
            &&& is_success(reply.status)
            &&& decoded::<Authorization>(reply.body@) matches Some(authorization)
            &&& session.request_of(&body).credentials == (CredentialsView::Token {
                token: authorization.authorization_token,
            })
            &&& session.request_of(&body).url == authorization.api_info.storage_api.api_url
                + "/b2api/v3/b2_list_buckets"@
        }),
{
}

} // verus!
