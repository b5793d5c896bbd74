//! The `b2_authorize_account` call: what is sent and what comes back.

use crate::json::{field, list_field, optional_field, viewed, views, FromJson, Json};
use crate::text::same;
use serde_json::Value;
use vstd::prelude::*;

verus! {

/// What the call sends: the two halves of an application key.
#[derive(Debug, PartialEq, Eq)]
pub struct Request {
    /// The identifier of the application key.
    pub application_key_id: String,
    /// The application key itself.
    pub application_key: String,
}

/// A permission that an application key carries.
#[derive(Clone, Copy, Debug, PartialEq, Eq, Structural)]
pub enum Capability {
    DeleteFiles,
    DeleteKeys,
    ReadBucketEncryption,
    WriteKeys,
    WriteBuckets,
    WriteBucketNotifications,
    WriteBucketReplications,
    ReadBucketNotifications,
    ReadBucketReplications,
    DeleteBuckets,
    ReadBuckets,
    BypassGovernance,
    ReadFileLegalHolds,
    ReadFiles,
    ListAllBucketNames,
    ReadBucketRetentions,
    WriteBucketRetentions,
    WriteFileLegalHolds,
    ShareFiles,
    WriteFiles,
    ListKeys,
    ListBuckets,
    ListFiles,
    WriteFileRetentions,
    WriteBucketEncryption,
    ReadFileRetentions,
    /// A capability that this library does not know.
    Other,
}

impl Capability {
    /// The capability that a name on the wire stands for. Every name that is
    /// not known stands for `Other`.
    pub open spec fn of_name(name: Seq<char>) -> Capability {
        if name == "deleteFiles"@ {
            Capability::DeleteFiles
        } else if name == "deleteKeys"@ {
            Capability::DeleteKeys
        } else if name == "readBucketEncryption"@ {
            Capability::ReadBucketEncryption
        } else if name == "writeKeys"@ {
            Capability::WriteKeys
        } else if name == "writeBuckets"@ {
            Capability::WriteBuckets
        } else if name == "writeBucketNotifications"@ {
            Capability::WriteBucketNotifications
        } else if name == "writeBucketReplications"@ {
            Capability::WriteBucketReplications
        } else if name == "readBucketNotifications"@ {
            Capability::ReadBucketNotifications
        } else if name == "readBucketReplications"@ {
            Capability::ReadBucketReplications
        } else if name == "deleteBuckets"@ {
            Capability::DeleteBuckets
        } else if name == "readBuckets"@ {
            Capability::ReadBuckets
        } else if name == "bypassGovernance"@ {
            Capability::BypassGovernance
        } else if name == "readFileLegalHolds"@ {
            Capability::ReadFileLegalHolds
        } else if name == "readFiles"@ {
            Capability::ReadFiles
        } else if name == "listAllBucketNames"@ {
            Capability::ListAllBucketNames
        } else if name == "readBucketRetentions"@ {
            Capability::ReadBucketRetentions
        } else if name == "writeBucketRetentions"@ {
            Capability::WriteBucketRetentions
        } else if name == "writeFileLegalHolds"@ {
            Capability::WriteFileLegalHolds
        } else if name == "shareFiles"@ {
            Capability::ShareFiles
        } else if name == "writeFiles"@ {
            Capability::WriteFiles
        } else if name == "listKeys"@ {
            Capability::ListKeys
        } else if name == "listBuckets"@ {
            Capability::ListBuckets
        } else if name == "listFiles"@ {
            Capability::ListFiles
        } else if name == "writeFileRetentions"@ {
            Capability::WriteFileRetentions
        } else if name == "writeBucketEncryption"@ {
            Capability::WriteBucketEncryption
        } else if name == "readFileRetentions"@ {
            Capability::ReadFileRetentions
        } else {
            Capability::Other
        }
    }

    /// The name under which a capability goes on the wire. `Other` goes out as
    /// `other`, whatever name it came in under.
    pub open spec fn wire_name(self) -> Seq<char> {
        match self {
            Capability::DeleteFiles => "deleteFiles"@,
            Capability::DeleteKeys => "deleteKeys"@,
            Capability::ReadBucketEncryption => "readBucketEncryption"@,
            Capability::WriteKeys => "writeKeys"@,
            Capability::WriteBuckets => "writeBuckets"@,
            Capability::WriteBucketNotifications => "writeBucketNotifications"@,
            Capability::WriteBucketReplications => "writeBucketReplications"@,
            Capability::ReadBucketNotifications => "readBucketNotifications"@,
            Capability::ReadBucketReplications => "readBucketReplications"@,
            Capability::DeleteBuckets => "deleteBuckets"@,
            Capability::ReadBuckets => "readBuckets"@,
            Capability::BypassGovernance => "bypassGovernance"@,
            Capability::ReadFileLegalHolds => "readFileLegalHolds"@,
            Capability::ReadFiles => "readFiles"@,
            Capability::ListAllBucketNames => "listAllBucketNames"@,
            Capability::ReadBucketRetentions => "readBucketRetentions"@,
            Capability::WriteBucketRetentions => "writeBucketRetentions"@,
            Capability::WriteFileLegalHolds => "writeFileLegalHolds"@,
            Capability::ShareFiles => "shareFiles"@,
            Capability::WriteFiles => "writeFiles"@,
            Capability::ListKeys => "listKeys"@,
            Capability::ListBuckets => "listBuckets"@,
            Capability::ListFiles => "listFiles"@,
            Capability::WriteFileRetentions => "writeFileRetentions"@,
            Capability::WriteBucketEncryption => "writeBucketEncryption"@,
            Capability::ReadFileRetentions => "readFileRetentions"@,
            Capability::Other => "other"@,
        }
    }

    /// Whether a name is one of the known ones.
    pub open spec fn is_known(name: Seq<char>) -> bool {
        ||| name == "deleteFiles"@
        ||| name == "deleteKeys"@
        ||| name == "readBucketEncryption"@
        ||| name == "writeKeys"@
        ||| name == "writeBuckets"@
        ||| name == "writeBucketNotifications"@
        ||| name == "writeBucketReplications"@
        ||| name == "readBucketNotifications"@
        ||| name == "readBucketReplications"@
        ||| name == "deleteBuckets"@
        ||| name == "readBuckets"@
        ||| name == "bypassGovernance"@
        ||| name == "readFileLegalHolds"@
        ||| name == "readFiles"@
        ||| name == "listAllBucketNames"@
        ||| name == "readBucketRetentions"@
        ||| name == "writeBucketRetentions"@
        ||| name == "writeFileLegalHolds"@
        ||| name == "shareFiles"@
        ||| name == "writeFiles"@
        ||| name == "listKeys"@
        ||| name == "listBuckets"@
        ||| name == "listFiles"@
        ||| name == "writeFileRetentions"@
        ||| name == "writeBucketEncryption"@
        ||| name == "readFileRetentions"@
    }

    /// Reads a capability from its name on the wire.
    pub fn from_name(name: &str) -> (r: Capability)
        ensures
            r == Self::of_name(name@),
    {
        if same(name, "deleteFiles") {
            Capability::DeleteFiles
        } else if same(name, "deleteKeys") {
            Capability::DeleteKeys
        } else if same(name, "readBucketEncryption") {
            Capability::ReadBucketEncryption
        } else if same(name, "writeKeys") {
            Capability::WriteKeys
        } else if same(name, "writeBuckets") {
            Capability::WriteBuckets
        } else if same(name, "writeBucketNotifications") {
            Capability::WriteBucketNotifications
        } else if same(name, "writeBucketReplications") {
            Capability::WriteBucketReplications
        } else if same(name, "readBucketNotifications") {
            Capability::ReadBucketNotifications
        } else if same(name, "readBucketReplications") {
            Capability::ReadBucketReplications
        } else if same(name, "deleteBuckets") {
            Capability::DeleteBuckets
        } else if same(name, "readBuckets") {
            Capability::ReadBuckets
        } else if same(name, "bypassGovernance") {
            Capability::BypassGovernance
        } else if same(name, "readFileLegalHolds") {
            Capability::ReadFileLegalHolds
        } else if same(name, "readFiles") {
            Capability::ReadFiles
        } else if same(name, "listAllBucketNames") {
            Capability::ListAllBucketNames
        } else if same(name, "readBucketRetentions") {
            Capability::ReadBucketRetentions
        } else if same(name, "writeBucketRetentions") {
            Capability::WriteBucketRetentions
        } else if same(name, "writeFileLegalHolds") {
            Capability::WriteFileLegalHolds
        } else if same(name, "shareFiles") {
            Capability::ShareFiles
        } else if same(name, "writeFiles") {
            Capability::WriteFiles
        } else if same(name, "listKeys") {
            Capability::ListKeys
        } else if same(name, "listBuckets") {
            Capability::ListBuckets
        } else if same(name, "listFiles") {
            Capability::ListFiles
        } else if same(name, "writeFileRetentions") {
            Capability::WriteFileRetentions
        } else if same(name, "writeBucketEncryption") {
            Capability::WriteBucketEncryption
        } else if same(name, "readFileRetentions") {
            Capability::ReadFileRetentions
        } else {
            Capability::Other
        }
    }

    /// The name under which the capability goes on the wire.
    pub fn name(&self) -> (name: &'static str)
        ensures
            name@ == self.wire_name(),
    {
        match self {
            Capability::DeleteFiles => "deleteFiles",
            Capability::DeleteKeys => "deleteKeys",
            Capability::ReadBucketEncryption => "readBucketEncryption",
            Capability::WriteKeys => "writeKeys",
            Capability::WriteBuckets => "writeBuckets",
            Capability::WriteBucketNotifications => "writeBucketNotifications",
            Capability::WriteBucketReplications => "writeBucketReplications",
            Capability::ReadBucketNotifications => "readBucketNotifications",
            Capability::ReadBucketReplications => "readBucketReplications",
            Capability::DeleteBuckets => "deleteBuckets",
            Capability::ReadBuckets => "readBuckets",
            Capability::BypassGovernance => "bypassGovernance",
            Capability::ReadFileLegalHolds => "readFileLegalHolds",
            Capability::ReadFiles => "readFiles",
            Capability::ListAllBucketNames => "listAllBucketNames",
            Capability::ReadBucketRetentions => "readBucketRetentions",
            Capability::WriteBucketRetentions => "writeBucketRetentions",
            Capability::WriteFileLegalHolds => "writeFileLegalHolds",
            Capability::ShareFiles => "shareFiles",
            Capability::WriteFiles => "writeFiles",
            Capability::ListKeys => "listKeys",
            Capability::ListBuckets => "listBuckets",
            Capability::ListFiles => "listFiles",
            Capability::WriteFileRetentions => "writeFileRetentions",
            Capability::WriteBucketEncryption => "writeBucketEncryption",
            Capability::ReadFileRetentions => "readFileRetentions",
            Capability::Other => "other",
        }
    }

    /// A string that is not one of the known names reads as `Other`, never as a
    /// failure, and `Other` is written as `other`. So reading and writing back
    /// does not return an unknown name: it is lost, and `other` stands in its
    /// place.
    pub proof fn unknown_name_reads_as_other(name: Seq<char>)
        requires
            !Self::is_known(name),
        ensures
            Self::of_name(name) == Capability::Other,
            <Self as FromJson>::of_json(Json::Text(name)) == Some(Capability::Other),
            Self::of_name(name).wire_name() == "other"@,
            name != "other"@ ==> Self::of_name(name).wire_name() != name,
    {
    }

    /// Every string reads as a value: there is no name that fails.
    pub proof fn every_name_reads(name: Seq<char>)
        ensures
            <Self as FromJson>::of_json(Json::Text(name)) == Some(Self::of_name(name)),
    {
    }

    /// Writing a capability and reading the name back gives the same
    /// capability.
    pub proof fn name_reads_back(value: Capability)
        ensures
            Self::of_name(value.wire_name()) == value,
    {
        reveal_strlit("deleteFiles");
        reveal_strlit("deleteKeys");
        reveal_strlit("readBucketEncryption");
        reveal_strlit("writeKeys");
        reveal_strlit("writeBuckets");
        reveal_strlit("writeBucketNotifications");
        reveal_strlit("writeBucketReplications");
        reveal_strlit("readBucketNotifications");
        reveal_strlit("readBucketReplications");
        reveal_strlit("deleteBuckets");
        reveal_strlit("readBuckets");
        reveal_strlit("bypassGovernance");
        reveal_strlit("readFileLegalHolds");
        reveal_strlit("readFiles");
        reveal_strlit("listAllBucketNames");
        reveal_strlit("readBucketRetentions");
        reveal_strlit("writeBucketRetentions");
        reveal_strlit("writeFileLegalHolds");
        reveal_strlit("shareFiles");
        reveal_strlit("writeFiles");
        reveal_strlit("listKeys");
        reveal_strlit("listBuckets");
        reveal_strlit("listFiles");
        reveal_strlit("writeFileRetentions");
        reveal_strlit("writeBucketEncryption");
        reveal_strlit("readFileRetentions");
        reveal_strlit("other");
        assert("deleteFiles"@.len() == 11);
        assert("deleteKeys"@.len() == 10);
        assert("readBucketEncryption"@.len() == 20);
        assert("writeKeys"@.len() == 9);
        assert("writeBuckets"@.len() == 12);
        assert("writeBucketNotifications"@.len() == 24);
        assert("writeBucketReplications"@.len() == 23);
        assert("readBucketNotifications"@.len() == 23);
        assert("readBucketReplications"@.len() == 22);
        assert("deleteBuckets"@.len() == 13);
        assert("readBuckets"@.len() == 11);
        assert("bypassGovernance"@.len() == 16);
        assert("readFileLegalHolds"@.len() == 18);
        assert("readFiles"@.len() == 9);
        assert("listAllBucketNames"@.len() == 18);
        assert("readBucketRetentions"@.len() == 20);
        assert("writeBucketRetentions"@.len() == 21);
        assert("writeFileLegalHolds"@.len() == 19);
        assert("shareFiles"@.len() == 10);
        assert("writeFiles"@.len() == 10);
        assert("listKeys"@.len() == 8);
        assert("listBuckets"@.len() == 11);
        assert("listFiles"@.len() == 9);
        assert("writeFileRetentions"@.len() == 19);
        assert("writeBucketEncryption"@.len() == 21);
        assert("readFileRetentions"@.len() == 18);
        assert("other"@.len() == 5);
        assert("deleteFiles"@[0] == 'd');
        assert("deleteKeys"@[0] == 'd');
        assert("listAllBucketNames"@[0] == 'l');
        assert("listBuckets"@[0] == 'l');
        assert("listFiles"@[0] == 'l');
        assert("readBucketEncryption"@[10] == 'E');
        assert("readBucketNotifications"@[0] == 'r');
        assert("readBucketRetentions"@[10] == 'R');
        assert("readBuckets"@[0] == 'r');
        assert("readFileLegalHolds"@[0] == 'r');
        assert("readFileLegalHolds"@[8] == 'L');
        assert("readFileRetentions"@[0] == 'r');
        assert("readFileRetentions"@[8] == 'R');
        assert("readFiles"@[0] == 'r');
        assert("shareFiles"@[0] == 's');
        assert("writeBucketEncryption"@[11] == 'E');
        assert("writeBucketReplications"@[0] == 'w');
        assert("writeBucketRetentions"@[11] == 'R');
        assert("writeFileLegalHolds"@[9] == 'L');
        assert("writeFileRetentions"@[9] == 'R');
        assert("writeFiles"@[0] == 'w');
        assert("writeKeys"@[0] == 'w');
    }
}

impl View for Capability {
    type V = Capability;

    open spec fn view(&self) -> Capability {
        *self
    }
}

impl FromJson for Capability {
    /// A string reads as the capability that it names; anything else is no
    /// capability.
    open spec fn of_json(doc: Json) -> Option<Capability> {
        match doc.text() {
            Some(name) => Some(Capability::of_name(name)),
            None => None,
        }
    }

    fn from_json(doc: &Value) -> (r: Option<Capability>) {
        match doc.as_str() {
            Some(name) => Some(Capability::from_name(name)),
            None => None,
        }
    }
}

/// What the key may do with the B2 native API, and where to reach it.
#[derive(Debug, PartialEq, Eq)]
pub struct StorageApi {
    /// The smallest possible size of a part of a large file, except the last
    /// one.
    pub absolute_minimum_part_size: usize,
    /// The base URL to use for all API calls except for uploading and
    /// downloading files.
    pub api_url: String,
    /// When present, access is restricted to one bucket.
    pub bucket_id: Option<String>,
    /// The name of the bucket that access is restricted to, where it still
    /// exists.
    pub bucket_name: Option<String>,
    /// The capabilities that the key has.
    pub capabilities: Vec<Capability>,
    /// The base URL to use for downloading files.
    pub download_url: String,
    /// The API type that the information in the object corresponds to.
    pub info_type: String,
    /// When present, access is restricted to files whose names start with the
    /// prefix.
    pub name_prefix: Option<String>,
    /// The recommended size of a part of a large file.
    pub recommended_part_size: usize,
    /// The base URL to use for all API calls using the S3 compatible API.
    pub s3_api_url: String,
}

/// What a [`StorageApi`] holds.
pub struct StorageApiView {
    pub absolute_minimum_part_size: usize,
    pub api_url: Seq<char>,
    pub bucket_id: Option<Seq<char>>,
    pub bucket_name: Option<Seq<char>>,
    pub capabilities: Seq<Capability>,
    pub download_url: Seq<char>,
    pub info_type: Seq<char>,
    pub name_prefix: Option<Seq<char>>,
    pub recommended_part_size: usize,
    pub s3_api_url: Seq<char>,
}

impl View for StorageApi {
    type V = StorageApiView;

    open spec fn view(&self) -> StorageApiView {
        StorageApiView {
            absolute_minimum_part_size: self.absolute_minimum_part_size,
            api_url: self.api_url@,
            bucket_id: viewed(self.bucket_id),
            bucket_name: viewed(self.bucket_name),
            capabilities: views(self.capabilities@),
            download_url: self.download_url@,
            info_type: self.info_type@,
            name_prefix: viewed(self.name_prefix),
            recommended_part_size: self.recommended_part_size,
            s3_api_url: self.s3_api_url@,
        }
    }
}

impl FromJson for StorageApi {
    /// The object has sizes under `absoluteMinimumPartSize` and
    /// `recommendedPartSize`, strings under `apiUrl`, `downloadUrl`, `infoType`
    /// and `s3ApiUrl`, and an array of strings under `capabilities`.
    /// `bucketId`, `bucketName` and `namePrefix` may be vacant, and hold a
    /// string where they are not. Other members are passed over.
    open spec fn of_json(doc: Json) -> Option<StorageApiView> {
        match (
            doc.field::<usize>("absoluteMinimumPartSize"@),
            doc.field::<String>("apiUrl"@),
            doc.optional_field::<String>("bucketId"@),
            doc.optional_field::<String>("bucketName"@),
            doc.list_field::<Capability>("capabilities"@),
            doc.field::<String>("downloadUrl"@),
            doc.field::<String>("infoType"@),
            doc.optional_field::<String>("namePrefix"@),
            doc.field::<usize>("recommendedPartSize"@),
            doc.field::<String>("s3ApiUrl"@),
        ) {
            (
                Some(absolute_minimum_part_size),
                Some(api_url),
                Some(bucket_id),
                Some(bucket_name),
                Some(capabilities),
                Some(download_url),
                Some(info_type),
                Some(name_prefix),
                Some(recommended_part_size),
                Some(s3_api_url),
            ) => Some(
                StorageApiView {
                    absolute_minimum_part_size,
                    api_url,
                    bucket_id,
                    bucket_name,
                    capabilities,
                    download_url,
                    info_type,
                    name_prefix,
                    recommended_part_size,
                    s3_api_url,
                },
            ),
            _ => None,
        }
    }

    fn from_json(doc: &Value) -> (r: Option<StorageApi>) {
        let absolute_minimum_part_size = field::<usize>(doc, "absoluteMinimumPartSize")?;
        let api_url = field::<String>(doc, "apiUrl")?;
        let bucket_id = optional_field::<String>(doc, "bucketId")?;
        let bucket_name = optional_field::<String>(doc, "bucketName")?;
        let capabilities = list_field::<Capability>(doc, "capabilities")?;
        let download_url = field::<String>(doc, "downloadUrl")?;
        let info_type = field::<String>(doc, "infoType")?;
        let name_prefix = optional_field::<String>(doc, "namePrefix")?;
        let recommended_part_size = field::<usize>(doc, "recommendedPartSize")?;
        let s3_api_url = field::<String>(doc, "s3ApiUrl")?;
        Some(
            StorageApi {
                absolute_minimum_part_size,
                api_url,
                bucket_id,
                bucket_name,
                capabilities,
                download_url,
                info_type,
                name_prefix,
                recommended_part_size,
                s3_api_url,
            },
        )
    }
}

/// What the key may do with the Partner API, and where to reach it.
#[derive(Debug, PartialEq, Eq)]
pub struct GroupsAPI {
    /// The capabilities that the key has, by name.
    pub capabilities: Vec<String>,
    /// The base URL for all Partner API calls.
    pub groups_api_url: String,
    /// The API type that the information in the object corresponds to.
    pub info_type: String,
}

/// What a [`GroupsAPI`] holds.
pub struct GroupsAPIView {
    pub capabilities: Seq<Seq<char>>,
    pub groups_api_url: Seq<char>,
    pub info_type: Seq<char>,
}

impl View for GroupsAPI {
    type V = GroupsAPIView;

    open spec fn view(&self) -> GroupsAPIView {
        GroupsAPIView {
            capabilities: views(self.capabilities@),
            groups_api_url: self.groups_api_url@,
            info_type: self.info_type@,
        }
    }
}

impl FromJson for GroupsAPI {
    /// The object has an array of strings under `capabilities` and strings
    /// under `groupsApiUrl` and `infoType`. Other members are passed over.
    open spec fn of_json(doc: Json) -> Option<GroupsAPIView> {
        match (
            doc.list_field::<String>("capabilities"@),
            doc.field::<String>("groupsApiUrl"@),
            doc.field::<String>("infoType"@),
        ) {
            (Some(capabilities), Some(groups_api_url), Some(info_type)) => Some(
                GroupsAPIView { capabilities, groups_api_url, info_type },
            ),
            _ => None,
        }
    }

    fn from_json(doc: &Value) -> (r: Option<GroupsAPI>) {
        let capabilities = list_field::<String>(doc, "capabilities")?;
        let groups_api_url = field::<String>(doc, "groupsApiUrl")?;
        let info_type = field::<String>(doc, "infoType")?;
        Some(GroupsAPI { capabilities, groups_api_url, info_type })
    }
}

/// The information that the server groups by API suite.
#[derive(Debug, PartialEq, Eq)]
pub struct ApiInfo {
    /// What is needed for the Partner API, where the key has access to it.
    pub groups_api: Option<GroupsAPI>,
    /// What is needed for the B2 native API.
    pub storage_api: StorageApi,
}

/// What a [`ApiInfo`] holds.
pub struct ApiInfoView {
    pub groups_api: Option<GroupsAPIView>,
    pub storage_api: StorageApiView,
}

impl View for ApiInfo {
    type V = ApiInfoView;

    open spec fn view(&self) -> ApiInfoView {
        ApiInfoView { groups_api: viewed(self.groups_api), storage_api: self.storage_api@ }
    }
}

impl FromJson for ApiInfo {
    /// The object has a storage record under `storageApi`. `groupsApi` may be
    /// vacant, and holds a groups record where it is not. Other members are
    /// passed over.
    open spec fn of_json(doc: Json) -> Option<ApiInfoView> {
        match (
            doc.optional_field::<GroupsAPI>("groupsApi"@),
            doc.field::<StorageApi>("storageApi"@),
        ) {
            (Some(groups_api), Some(storage_api)) => Some(ApiInfoView { groups_api, storage_api }),
            _ => None,
        }
    }

    fn from_json(doc: &Value) -> (r: Option<ApiInfo>) {
        let groups_api = optional_field::<GroupsAPI>(doc, "groupsApi")?;
        let storage_api = field::<StorageApi>(doc, "storageApi")?;
        Some(ApiInfo { groups_api, storage_api })
    }
}

/// What the server returns where it accepts the credentials.
#[derive(Debug, PartialEq, Eq)]
pub struct Response {
    /// The identifier for the account.
    pub account_id: String,
    /// The information that is needed to call each API suite.
    pub api_info: ApiInfo,
    /// The token to put into the `Authorization` header of every later call. It
    /// is valid for at most 24 hours.
    pub authorization_token: String,
    /// When the application key expires, where it does.
    pub application_key_expiration_timestamp: Option<usize>,
}

/// What a [`Response`] holds.
pub struct ResponseView {
    pub account_id: Seq<char>,
    pub api_info: ApiInfoView,
    pub authorization_token: Seq<char>,
    pub application_key_expiration_timestamp: Option<usize>,
}

impl View for Response {
    type V = ResponseView;

    open spec fn view(&self) -> ResponseView {
        ResponseView {
            account_id: self.account_id@,
            api_info: self.api_info@,
            authorization_token: self.authorization_token@,
            application_key_expiration_timestamp: self.application_key_expiration_timestamp,
        }
    }
}

impl FromJson for Response {
    /// The object has strings under `accountId` and `authorizationToken` and an
    /// information record under `apiInfo`. `applicationKeyExpirationTimestamp`
    /// may be vacant, and holds a size where it is not. Other members are
    /// passed over.
    open spec fn of_json(doc: Json) -> Option<ResponseView> {
        match (
            doc.field::<String>("accountId"@),
            doc.field::<ApiInfo>("apiInfo"@),
            doc.field::<String>("authorizationToken"@),
            doc.optional_field::<usize>("applicationKeyExpirationTimestamp"@),
        ) {
            (
                Some(account_id),
                Some(api_info),
                Some(authorization_token),
                Some(application_key_expiration_timestamp),
            ) => Some(
                ResponseView {
                    account_id,
                    api_info,
                    authorization_token,
                    application_key_expiration_timestamp,
                },
            ),
            _ => None,
        }
    }

    fn from_json(doc: &Value) -> (r: Option<Response>) {
        let account_id = field::<String>(doc, "accountId")?;
        let api_info = field::<ApiInfo>(doc, "apiInfo")?;
        let authorization_token = field::<String>(doc, "authorizationToken")?;
        let application_key_expiration_timestamp = optional_field::<usize>(
            doc,
            "applicationKeyExpirationTimestamp",
        )?;
        Some(
            Response {
                account_id,
                api_info,
                authorization_token,
                application_key_expiration_timestamp,
            },
        )
    }
}

} // verus!
