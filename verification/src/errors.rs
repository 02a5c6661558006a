use vstd::prelude::*;

verus! {

/// Every way an operation of the vault can fail.
#[derive(Debug, Clone, PartialEq, Eq)]
pub enum AppError {
    EmptyServiceName,
    EmptyLogin,
    EmptyPassword,
    EmptyMasterPassword,
    MasterPasswordNotSet,
    InvalidMasterPassword,
    CurrentMasterPasswordRequired,
    EntryNotFound,
    InvalidArgument(String),
    Crypto,
    Storage(String),
}

/// The human-readable description of an error.
pub open spec fn error_text(e: AppError) -> Seq<char> {
    match e {
        AppError::EmptyServiceName => "пустое название сервиса"@,
        AppError::EmptyLogin => "пустой логин"@,
        AppError::EmptyPassword => "пустой пароль"@,
        AppError::EmptyMasterPassword => "пустой мастер-пароль"@,
        AppError::MasterPasswordNotSet => "мастер-пароль не установлен"@,
        AppError::InvalidMasterPassword => "неверный мастер-пароль"@,
        AppError::CurrentMasterPasswordRequired => "для смены мастер-пароля требуется подтверждение текущего"@,
        AppError::EntryNotFound => "запись не найдена"@,
        AppError::InvalidArgument(arg) => "неверный аргумент: "@ + arg@,
        AppError::Crypto => "ошибка криптографии"@,
        AppError::Storage(msg) => "ошибка хранилища: "@ + msg@,
    }
}

impl AppError {
    /// The description of this error, as shown to a user.
    pub fn message(&self) -> (s: String)
        ensures
            s@ == error_text(*self),
    {
        match self {
            AppError::EmptyServiceName => String::from_str("пустое название сервиса"),
            AppError::EmptyLogin => String::from_str("пустой логин"),
            AppError::EmptyPassword => String::from_str("пустой пароль"),
            AppError::EmptyMasterPassword => String::from_str("пустой мастер-пароль"),
            AppError::MasterPasswordNotSet => String::from_str("мастер-пароль не установлен"),
            AppError::InvalidMasterPassword => String::from_str("неверный мастер-пароль"),
            AppError::CurrentMasterPasswordRequired => String::from_str(
                "для смены мастер-пароля требуется подтверждение текущего",
            ),
            AppError::EntryNotFound => String::from_str("запись не найдена"),
            AppError::InvalidArgument(arg) => String::from_str("неверный аргумент: ").concat(arg.as_str()),
            AppError::Crypto => String::from_str("ошибка криптографии"),
            AppError::Storage(msg) => String::from_str("ошибка хранилища: ").concat(msg.as_str()),
        }
    }
}

} // verus!
