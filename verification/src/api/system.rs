use vstd::prelude::*;

use super::v1::system::{is_default_status, CustomizedProfile, SystemStatus};
use crate::text::{parse_bool, parse_bool_spec, parse_i32, parse_int_spec, str_eq, IntErrorKind};

verus! {

broadcast use vstd::string::group_string_axioms;

/// A system setting, with its key.
#[derive(Clone, Debug)]
pub struct SystemSetting {
    pub name: SystemSettingKey,
    pub value: String,
    pub description: String,
}

/// The keys of the system settings.
#[derive(Clone, Copy, Debug, PartialEq, Eq, Structural)]
pub enum SystemSettingKey {
    /// The name of server id.
    ServerId,
    /// The name of secret session.
    SecretSession,
    /// The name of allow signup setting.
    AllowSignup,
    /// The name of disable password login setting.
    DisablePasswordLogin,
    /// The name of disable public memos setting.
    DisablePublicMemos,
    /// The name of max upload size setting.
    MaxUploadSizeMiB,
    /// The name of additional style.
    AdditionalStyle,
    /// The name of additional script.
    AdditionalScript,
    /// The name of customized server profile.
    CustomizedProfile,
    /// The name of storage service ID.
    StorageServiceID,
    /// The name of local storage path.
    LocalStoragePath,
    /// The name of Telegram Bot Token.
    TelegramBotToken,
    /// The name of memo display with updated ts.
    MemoDisplayWithUpdatedTs,
    /// The name of auto backup interval as seconds.
    AutoBackupInterval,
    /// A key that names no known setting.
    Unknow,
}

/// The text of each key; `Unknow` has none.
pub open spec fn setting_key_name(k: SystemSettingKey) -> Seq<char> {
    match k {
        SystemSettingKey::ServerId => "server-id"@,
        SystemSettingKey::SecretSession => "secret-session"@,
        SystemSettingKey::AllowSignup => "allow-signup"@,
        SystemSettingKey::DisablePasswordLogin => "disable-password-login"@,
        SystemSettingKey::DisablePublicMemos => "disable-public-memos"@,
        SystemSettingKey::MaxUploadSizeMiB => "max-upload-size-mib"@,
        SystemSettingKey::AdditionalStyle => "additional-style"@,
        SystemSettingKey::AdditionalScript => "additional-script"@,
        SystemSettingKey::CustomizedProfile => "customized-profile"@,
        SystemSettingKey::StorageServiceID => "storage-service-id"@,
        SystemSettingKey::LocalStoragePath => "local-storage-path"@,
        SystemSettingKey::TelegramBotToken => "telegram-bot-token"@,
        SystemSettingKey::MemoDisplayWithUpdatedTs => "memo-display-with-updated-ts"@,
        SystemSettingKey::AutoBackupInterval => "auto-backup-interval"@,
        SystemSettingKey::Unknow => Seq::<char>::empty(),
    }
}

/// The key whose text is `s`; `Unknow` for any other text.
pub open spec fn setting_key_from_name(s: Seq<char>) -> SystemSettingKey {
    if s == "server-id"@ {
        SystemSettingKey::ServerId
    } else if s == "secret-session"@ {
        SystemSettingKey::SecretSession
    } else if s == "allow-signup"@ {
        SystemSettingKey::AllowSignup
    } else if s == "disable-password-login"@ {
        SystemSettingKey::DisablePasswordLogin
    } else if s == "disable-public-memos"@ {
        SystemSettingKey::DisablePublicMemos
    } else if s == "max-upload-size-mib"@ {
        SystemSettingKey::MaxUploadSizeMiB
    } else if s == "additional-style"@ {
        SystemSettingKey::AdditionalStyle
    } else if s == "additional-script"@ {
        SystemSettingKey::AdditionalScript
    } else if s == "customized-profile"@ {
        SystemSettingKey::CustomizedProfile
    } else if s == "storage-service-id"@ {
        SystemSettingKey::StorageServiceID
    } else if s == "local-storage-path"@ {
        SystemSettingKey::LocalStoragePath
    } else if s == "telegram-bot-token"@ {
        SystemSettingKey::TelegramBotToken
    } else if s == "memo-display-with-updated-ts"@ {
        SystemSettingKey::MemoDisplayWithUpdatedTs
    } else if s == "auto-backup-interval"@ {
        SystemSettingKey::AutoBackupInterval
    } else {
        SystemSettingKey::Unknow
    }
}

impl SystemSettingKey {
    /// The key whose text is `s`; `Unknow` for any other text. It never fails.
    pub fn from_str(s: &str) -> (r: Result<Self, ()>)
        ensures
            r == Ok::<SystemSettingKey, ()>(setting_key_from_name(s@)),
    {
        if str_eq(s, "server-id") {
            Ok(SystemSettingKey::ServerId)
        } else if str_eq(s, "secret-session") {
            Ok(SystemSettingKey::SecretSession)
        } else if str_eq(s, "allow-signup") {
            Ok(SystemSettingKey::AllowSignup)
        } else if str_eq(s, "disable-password-login") {
            Ok(SystemSettingKey::DisablePasswordLogin)
        } else if str_eq(s, "disable-public-memos") {
            Ok(SystemSettingKey::DisablePublicMemos)
        } else if str_eq(s, "max-upload-size-mib") {
            Ok(SystemSettingKey::MaxUploadSizeMiB)
        } else if str_eq(s, "additional-style") {
            Ok(SystemSettingKey::AdditionalStyle)
        } else if str_eq(s, "additional-script") {
            Ok(SystemSettingKey::AdditionalScript)
        } else if str_eq(s, "customized-profile") {
            Ok(SystemSettingKey::CustomizedProfile)
        } else if str_eq(s, "storage-service-id") {
            Ok(SystemSettingKey::StorageServiceID)
        } else if str_eq(s, "local-storage-path") {
            Ok(SystemSettingKey::LocalStoragePath)
        } else if str_eq(s, "telegram-bot-token") {
            Ok(SystemSettingKey::TelegramBotToken)
        } else if str_eq(s, "memo-display-with-updated-ts") {
            Ok(SystemSettingKey::MemoDisplayWithUpdatedTs)
        } else if str_eq(s, "auto-backup-interval") {
            Ok(SystemSettingKey::AutoBackupInterval)
        } else {
            Ok(SystemSettingKey::Unknow)
        }
    }

    /// The text of the key; empty for `Unknow`.
    pub fn to_string(&self) -> (r: String)
        ensures
            r@ == setting_key_name(*self),
    {
        let key: &str = match self {
            SystemSettingKey::ServerId => "server-id",
            SystemSettingKey::SecretSession => "secret-session",
            SystemSettingKey::AllowSignup => "allow-signup",
            SystemSettingKey::DisablePasswordLogin => "disable-password-login",
            SystemSettingKey::DisablePublicMemos => "disable-public-memos",
            SystemSettingKey::MaxUploadSizeMiB => "max-upload-size-mib",
            SystemSettingKey::AdditionalStyle => "additional-style",
            SystemSettingKey::AdditionalScript => "additional-script",
            SystemSettingKey::CustomizedProfile => "customized-profile",
            SystemSettingKey::StorageServiceID => "storage-service-id",
            SystemSettingKey::LocalStoragePath => "local-storage-path",
            SystemSettingKey::TelegramBotToken => "telegram-bot-token",
            SystemSettingKey::MemoDisplayWithUpdatedTs => "memo-display-with-updated-ts",
            SystemSettingKey::AutoBackupInterval => "auto-backup-interval",
            SystemSettingKey::Unknow => "",
        };
        proof {
            reveal_strlit("");
        }
        String::from_str(key)
    }
}

/// Reading back the text of a key gives the key.
pub proof fn lemma_setting_key_roundtrip(k: SystemSettingKey)
    ensures
        setting_key_from_name(setting_key_name(k)) == k,
{
    reveal_strlit("server-id");
    reveal_strlit("secret-session");
    reveal_strlit("allow-signup");
    reveal_strlit("disable-password-login");
    reveal_strlit("disable-public-memos");
    reveal_strlit("max-upload-size-mib");
    reveal_strlit("additional-style");
    reveal_strlit("additional-script");
    reveal_strlit("customized-profile");
    reveal_strlit("storage-service-id");
    reveal_strlit("local-storage-path");
    reveal_strlit("telegram-bot-token");
    reveal_strlit("memo-display-with-updated-ts");
    reveal_strlit("auto-backup-interval");
    // Names of different lengths differ; those of one length differ in their first letter.
    assert("server-id"@.len() == 9);
    assert("secret-session"@.len() == 14);
    assert("allow-signup"@.len() == 12);
    assert("disable-password-login"@.len() == 22);
    assert("disable-public-memos"@.len() == 20);
    assert("max-upload-size-mib"@.len() == 19);
    assert("additional-style"@.len() == 16);
    assert("additional-script"@.len() == 17);
    assert("customized-profile"@.len() == 18);
    assert("storage-service-id"@.len() == 18);
    assert("local-storage-path"@.len() == 18);
    assert("telegram-bot-token"@.len() == 18);
    assert("memo-display-with-updated-ts"@.len() == 28);
    assert("auto-backup-interval"@.len() == 20);
    assert("disable-public-memos"@[0] == 'd');
    assert("auto-backup-interval"@[0] == 'a');
    assert("customized-profile"@[0] == 'c');
    assert("storage-service-id"@[0] == 's');
    assert("local-storage-path"@[0] == 'l');
    assert("telegram-bot-token"@[0] == 't');
}

/// `s.parse::<i32>().unwrap_or_default()`.
pub open spec fn i32_or_zero(s: Seq<char>) -> i32 {
    match parse_int_spec(s, i32::MIN as int, i32::MAX as int) {
        Ok(v) => v as i32,
        Err(_) => 0,
    }
}

/// `s.parse::<bool>().unwrap_or_default()`.
pub open spec fn bool_or_false(s: Seq<char>) -> bool {
    match parse_bool_spec(s) {
        Some(b) => b,
        None => false,
    }
}

/// The status after one setting is applied to it. `profile` is what the value of the
/// setting decodes to as a customized profile, if it decodes.
pub open spec fn apply_setting(st: SystemStatus, s: SystemSetting, profile: Option<CustomizedProfile>) -> SystemStatus {
    match s.name {
        SystemSettingKey::AllowSignup => SystemStatus { allow_sign_up: bool_or_false(s.value@), ..st },
        SystemSettingKey::DisablePasswordLogin => SystemStatus { disable_password_login: bool_or_false(s.value@), ..st },
        SystemSettingKey::DisablePublicMemos => SystemStatus { disable_public_memos: bool_or_false(s.value@), ..st },
        SystemSettingKey::MaxUploadSizeMiB => SystemStatus { max_upload_size_mi_b: i32_or_zero(s.value@), ..st },
        SystemSettingKey::AdditionalStyle => SystemStatus { additional_style: s.value, ..st },
        SystemSettingKey::AdditionalScript => SystemStatus { additional_script: s.value, ..st },
        SystemSettingKey::CustomizedProfile => match profile {
            Some(p) => SystemStatus { customized_profile: p, ..st },
            None => st,
        },
        SystemSettingKey::StorageServiceID => SystemStatus { storage_service_id: i32_or_zero(s.value@), ..st },
        SystemSettingKey::LocalStoragePath => SystemStatus { local_storage_path: s.value, ..st },
        SystemSettingKey::MemoDisplayWithUpdatedTs => SystemStatus { memo_display_with_updated_ts: bool_or_false(s.value@), ..st },
        SystemSettingKey::AutoBackupInterval => SystemStatus { auto_backup_interval: i32_or_zero(s.value@), ..st },
        _ => st,
    }
}

/// The status after the settings are applied to it in order.
pub open spec fn apply_settings(st: SystemStatus, items: Seq<(SystemSetting, Option<CustomizedProfile>)>) -> SystemStatus
    decreases items.len(),
{
    if items.len() == 0 {
        st
    } else {
        apply_setting(apply_settings(st, items.drop_last()), items.last().0, items.last().1)
    }
}

fn i32_or_zero_exec(s: &String) -> (r: i32)
    ensures
        r == i32_or_zero(s@),
{
    match parse_i32(s.as_str()) {
        Ok(v) => v,
        Err(_) => 0,
    }
}

fn bool_or_false_exec(s: &String) -> (r: bool)
    ensures
        r == bool_or_false(s@),
{
    match parse_bool(s.as_str()) {
        Some(b) => b,
        None => false,
    }
}

impl SystemStatus {
    /// Applies one setting, as `apply_setting` says.
    pub fn apply(self, setting: SystemSetting, profile: Option<CustomizedProfile>) -> (r: Self)
        ensures
            r == apply_setting(self, setting, profile),
    {
        let mut st = self;
        match setting.name {
            SystemSettingKey::AllowSignup => st.allow_sign_up = bool_or_false_exec(&setting.value),
            SystemSettingKey::DisablePasswordLogin => st.disable_password_login = bool_or_false_exec(&setting.value),
            SystemSettingKey::DisablePublicMemos => st.disable_public_memos = bool_or_false_exec(&setting.value),
            SystemSettingKey::MaxUploadSizeMiB => st.max_upload_size_mi_b = i32_or_zero_exec(&setting.value),
            SystemSettingKey::AdditionalStyle => st.additional_style = setting.value,
            SystemSettingKey::AdditionalScript => st.additional_script = setting.value,
            SystemSettingKey::CustomizedProfile => {
                if let Some(p) = profile {
                    st.customized_profile = p;
                }
            },
            SystemSettingKey::StorageServiceID => st.storage_service_id = i32_or_zero_exec(&setting.value),
            SystemSettingKey::LocalStoragePath => st.local_storage_path = setting.value,
            SystemSettingKey::MemoDisplayWithUpdatedTs => st.memo_display_with_updated_ts = bool_or_false_exec(&setting.value),
            SystemSettingKey::AutoBackupInterval => st.auto_backup_interval = i32_or_zero_exec(&setting.value),
            _ => {},
        }
        st
    }

    /// Applies the settings in order, as `apply_settings` says.
    pub fn apply_all(self, settings: Vec<(SystemSetting, Option<CustomizedProfile>)>) -> (r: Self)
        ensures
            r == apply_settings(self, settings@),
    {
        let ghost all = settings@;
        assert(all.len() == settings.len());
        let mut rest = settings;
        let mut st = self;
        let mut i: usize = 0;
        while rest.len() > 0
            invariant
                i + rest@.len() == all.len(),
                all.len() <= usize::MAX,
                rest@ == all.skip(i as int),
                st == apply_settings(self, all.take(i as int)),
            decreases rest@.len(),
        {
            let (setting, profile) = rest.remove(0);
            assert(all.take(i + 1).drop_last() == all.take(i as int));
            assert(all.take(i + 1).last() == all[i as int]);
            st = st.apply(setting, profile);
            assert(all.skip(i + 1) == all.skip(i as int).remove(0));
            i = i + 1;
        }
        assert(all.take(i as int) == all);
        st
    }

    /// The status that the stored settings give, starting from the default status.
    /// Each setting comes with what its value decodes to as a customized profile.
    pub fn from_settings(settings: Vec<(SystemSetting, Option<CustomizedProfile>)>) -> (r: Self)
        ensures
            exists|d: SystemStatus| is_default_status(d) && r == apply_settings(d, settings@),
    {
        let d = SystemStatus::default();
        d.apply_all(settings)
    }
}

} // verus!
