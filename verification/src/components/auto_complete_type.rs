//! Browser autocomplete behaviour of text inputs.

use vstd::prelude::*;

verus! {
/// Browser autocomplete behaviour for text input components: the HTML
/// `autocomplete` attribute value.
#[derive(Debug, Clone, PartialEq, Eq, Structural)]
pub enum AutoCompleteType {
    /// Browser chooses what to suggest. Default.
    On,
    /// Autocomplete is disabled.
    Off,
    /// A full name.
    Name,
    /// A given (first) name.
    GivenName,
    /// A family (last) name.
    FamilyName,
    /// An email address.
    Email,
    /// A username or account name.
    Username,
    /// A new password.
    NewPassword,
    /// The current password for the account.
    CurrentPassword,
    /// A one-time code.
    OneTimeCode,
    /// A job title.
    OrganizationTitle,
    /// A company or organisation name.
    Organization,
    /// A street address.
    StreetAddress,
    /// Address line 1.
    AddressLine1,
    /// Address line 2.
    AddressLine2,
    /// Address line 3.
    AddressLine3,
    /// A city or town.
    AddressLevel2,
    /// A state, province, or region.
    AddressLevel1,
    /// A postal / ZIP code.
    PostalCode,
    /// A country name.
    CountryName,
    /// A telephone number.
    Tel,
    /// A URL.
    Url,
}

impl Default for AutoCompleteType {
    fn default() -> (r: Self)
        ensures
            r == AutoCompleteType::On,
    {
        AutoCompleteType::On
    }
}

impl AutoCompleteType {
    /// The `autocomplete` attribute value.
    pub open spec fn attr_of(self) -> Seq<char> {
        match self {
            AutoCompleteType::On => "on"@,
            AutoCompleteType::Off => "off"@,
            AutoCompleteType::Name => "name"@,
            AutoCompleteType::GivenName => "given-name"@,
            AutoCompleteType::FamilyName => "family-name"@,
            AutoCompleteType::Email => "email"@,
            AutoCompleteType::Username => "username"@,
            AutoCompleteType::NewPassword => "new-password"@,
            AutoCompleteType::CurrentPassword => "current-password"@,
            AutoCompleteType::OneTimeCode => "one-time-code"@,
            AutoCompleteType::OrganizationTitle => "organization-title"@,
            AutoCompleteType::Organization => "organization"@,
            AutoCompleteType::StreetAddress => "street-address"@,
            AutoCompleteType::AddressLine1 => "address-line1"@,
            AutoCompleteType::AddressLine2 => "address-line2"@,
            AutoCompleteType::AddressLine3 => "address-line3"@,
            AutoCompleteType::AddressLevel2 => "address-level2"@,
            AutoCompleteType::AddressLevel1 => "address-level1"@,
            AutoCompleteType::PostalCode => "postal-code"@,
            AutoCompleteType::CountryName => "country-name"@,
            AutoCompleteType::Tel => "tel"@,
            AutoCompleteType::Url => "url"@,
        }
    }

    /// Returns the HTML `autocomplete` attribute string for this variant.
    pub fn as_str(&self) -> (s: &'static str)
        ensures
            s@ == self.attr_of(),
    {
        match self {
            AutoCompleteType::On => "on",
            AutoCompleteType::Off => "off",
            AutoCompleteType::Name => "name",
            AutoCompleteType::GivenName => "given-name",
            AutoCompleteType::FamilyName => "family-name",
            AutoCompleteType::Email => "email",
            AutoCompleteType::Username => "username",
            AutoCompleteType::NewPassword => "new-password",
            AutoCompleteType::CurrentPassword => "current-password",
            AutoCompleteType::OneTimeCode => "one-time-code",
            AutoCompleteType::OrganizationTitle => "organization-title",
            AutoCompleteType::Organization => "organization",
            AutoCompleteType::StreetAddress => "street-address",
            AutoCompleteType::AddressLine1 => "address-line1",
            AutoCompleteType::AddressLine2 => "address-line2",
            AutoCompleteType::AddressLine3 => "address-line3",
            AutoCompleteType::AddressLevel2 => "address-level2",
            AutoCompleteType::AddressLevel1 => "address-level1",
            AutoCompleteType::PostalCode => "postal-code",
            AutoCompleteType::CountryName => "country-name",
            AutoCompleteType::Tel => "tel",
            AutoCompleteType::Url => "url",
        }
    }

}

} // verus!
