use vstd::prelude::*;

use super::prefix::{extract_id, extract_name, format_name, format_name_spec, ExtractName, FormatName, USER_NAME_PREFIX};
use super::to_timestamp;
use super::v1::gen::{GetUserRequest, UpdateUserSettingRequest, User, UserSetting as UserSettingApi};
use crate::model::gen::UserSettingKey;
use crate::model::user::UserSetting;
use crate::pb::Timestamp;
use crate::pb::memos_api_v2::{role_number, row_status_number};
use crate::text::str_eq;

verus! {

broadcast use vstd::string::group_string_axioms;

/// The setting that a field-mask path names, with its value in `s`.
pub open spec fn setting_for_path(path: Seq<char>, s: UserSettingApi) -> Option<(UserSettingKey, Seq<char>)> {
    if path == "locale"@ {
        Some((UserSettingKey::Locale, s.locale@))
    } else if path == "appearance"@ {
        Some((UserSettingKey::Appearance, s.appearance@))
    } else if path == "memo_visibility"@ {
        Some((UserSettingKey::MemoVisibility, s.memo_visibility@))
    } else {
        None
    }
}

/// The settings that the paths name, in the order of the paths; other paths are skipped.
pub open spec fn settings_for_paths(paths: Seq<Seq<char>>, s: UserSettingApi) -> Seq<(UserSettingKey, Seq<char>)>
    decreases paths.len(),
{
    if paths.len() == 0 {
        seq![]
    } else {
        let rest = settings_for_paths(paths.drop_last(), s);
        match setting_for_path(paths.last(), s) {
            Some(p) => rest.push(p),
            None => rest,
        }
    }
}

/// A stored user setting as key and value.
pub open spec fn setting_entry(s: UserSetting) -> (UserSettingKey, Seq<char>) {
    (s.key, s.value@)
}

impl UpdateUserSettingRequest {
    /// The settings of user `user_id` that the request changes: one for each path of the
    /// mask that names a setting, in order. Nothing without a mask or without settings.
    pub fn as_settings(&self, user_id: i32) -> (r: Vec<UserSetting>)
        ensures
            forall|i: int| 0 <= i < r.len() ==> (#[trigger] r@[i]).user_id == user_id,
            match (self.update_mask, self.setting) {
                (Some(mask), Some(s)) => r@.map_values(|x: UserSetting| setting_entry(x))
                    == settings_for_paths(mask.paths.deep_view(), s),
                _ => r@.len() == 0,
            },
    {
        let mut rtn: Vec<UserSetting> = Vec::new();
        match (&self.update_mask, &self.setting) {
            (Some(mask), Some(settings)) => {
                let paths = &mask.paths;
                let ghost ps = paths.deep_view();
                for i in 0..paths.len()
                    invariant
                        ps == paths.deep_view(),
                        forall|j: int| 0 <= j < rtn.len() ==> (#[trigger] rtn@[j]).user_id == user_id,
                        rtn@.map_values(|x: UserSetting| setting_entry(x)) == settings_for_paths(ps.take(i as int), *settings),
                {
                    proof {
                        reveal_strlit("locale");
                        reveal_strlit("appearance");
                        reveal_strlit("memo_visibility");
                    }
                    assert(ps.take(i + 1).drop_last() == ps.take(i as int));
                    assert(ps.take(i + 1).last() == paths[i as int]@);
                    let path = paths[i].as_str();
                    let ghost before = rtn@;
                    if str_eq(path, "locale") {
                        rtn.push(UserSetting { user_id, key: UserSettingKey::Locale, value: settings.locale.clone() });
                    } else if str_eq(path, "appearance") {
                        rtn.push(UserSetting { user_id, key: UserSettingKey::Appearance, value: settings.appearance.clone() });
                    } else if str_eq(path, "memo_visibility") {
                        rtn.push(
                            UserSetting { user_id, key: UserSettingKey::MemoVisibility, value: settings.memo_visibility.clone() },
                        );
                    }
                    assert(rtn@.map_values(|x: UserSetting| setting_entry(x)) =~= settings_for_paths(ps.take(i + 1), *settings));
                }
                assert(ps.take(paths.len() as int) == ps);
            },
            _ => {},
        }
        rtn
    }
}

/// The v1 settings after one stored setting is applied.
pub open spec fn apply_user_setting(acc: UserSettingApi, s: UserSetting) -> UserSettingApi {
    match s.key {
        UserSettingKey::Locale => UserSettingApi { locale: s.value, ..acc },
        UserSettingKey::Appearance => UserSettingApi { appearance: s.value, ..acc },
        UserSettingKey::MemoVisibility => UserSettingApi { memo_visibility: s.value, ..acc },
        _ => acc,
    }
}

/// The v1 settings after the stored settings are applied in order.
pub open spec fn apply_user_settings(acc: UserSettingApi, ss: Seq<UserSetting>) -> UserSettingApi
    decreases ss.len(),
{
    if ss.len() == 0 {
        acc
    } else {
        apply_user_setting(apply_user_settings(acc, ss.drop_last()), ss.last())
    }
}

impl UserSettingApi {
    /// The v1 settings that the stored settings give; a later setting of a key wins.
    pub fn from_settings(value: Vec<UserSetting>) -> (r: Self)
        ensures
            exists|d: UserSettingApi| d.locale@.len() == 0 && d.appearance@.len() == 0 && d.memo_visibility@.len() == 0
                && r == apply_user_settings(d, value@),
    {
        let d = UserSettingApi { locale: String::new(), appearance: String::new(), memo_visibility: String::new() };
        let ghost d0 = d;
        let ghost all = value@;
        assert(all.len() == value.len());
        let mut setting = d;
        let mut rest = value;
        let mut i: usize = 0;
        while rest.len() > 0
            invariant
                i + rest@.len() == all.len(),
                all.len() <= usize::MAX,
                rest@ == all.skip(i as int),
                setting == apply_user_settings(d0, all.take(i as int)),
            decreases rest@.len(),
        {
            let s = rest.remove(0);
            assert(all.take(i + 1).drop_last() == all.take(i as int));
            assert(all.take(i + 1).last() == all[i as int]);
            match s.key {
                UserSettingKey::Locale => setting.locale = s.value,
                UserSettingKey::Appearance => setting.appearance = s.value,
                UserSettingKey::MemoVisibility => setting.memo_visibility = s.value,
                _ => {},
            }
            assert(all.skip(i + 1) == all.skip(i as int).remove(0));
            i = i + 1;
        }
        assert(all.take(i as int) == all);
        setting
    }
}

impl ExtractName for GetUserRequest {
    open spec fn spec_full_name(&self) -> Seq<char> {
        self.name@
    }

    open spec fn spec_prefix(&self) -> Seq<char> {
        USER_NAME_PREFIX@
    }

    fn get_name(&self) -> (r: String) {
        extract_name(&self.name, USER_NAME_PREFIX)
    }

    fn get_id(&self) -> (r: Result<i32, super::prefix::Error>) {
        extract_id(&self.name, USER_NAME_PREFIX)
    }
}

impl FormatName for crate::model::user::User {
    open spec fn spec_name(&self) -> Seq<char> {
        format_name_spec(USER_NAME_PREFIX@, self.id as int)
    }

    fn get_name(&self) -> (r: String) {
        format_name(USER_NAME_PREFIX, self.id as i64)
    }
}

/// The timestamp that `value` seconds stand for; none for `0`.
pub open spec fn timestamp_of(value: i64) -> Option<Timestamp> {
    if value == 0 {
        None
    } else {
        Some(Timestamp { seconds: value, nanos: 0 })
    }
}

impl User {
    /// The v1 view of a stored user: its name is `users/{id}`, and the password hash stands
    /// in the password field.
    pub fn from_model(value: crate::model::user::User) -> (r: Self)
        ensures
            r.name@ == format_name_spec(USER_NAME_PREFIX@, value.id as int),
            r.id == value.id,
            r.role == role_number(value.role),
            r.username == value.username,
            r.email == value.email,
            r.nickname == value.nickname,
            r.avatar_url == value.avatar_url,
            r.description == value.description,
            r.password == value.password_hash,
            r.row_status == row_status_number(value.row_status),
            r.create_time == timestamp_of(value.created_ts),
            r.update_time == timestamp_of(value.updated_ts),
    {
        let name = value.get_name();
        User {
            name,
            id: value.id,
            role: value.role.as_i32(),
            username: value.username,
            email: value.email,
            nickname: value.nickname,
            avatar_url: value.avatar_url,
            description: value.description,
            password: value.password_hash,
            row_status: value.row_status.as_i32(),
            create_time: to_timestamp(value.created_ts),
            update_time: to_timestamp(value.updated_ts),
        }
    }
}

} // verus!
