//! The example installer-definition (WiX Source) document.

use vstd::prelude::*;

verus! {

/// The text of the example installer-definition document.
pub open spec fn spec_template() -> Seq<char> {
    "<?xml version='1.0' encoding='windows-1252'?>\n<Wix xmlns='http://schemas.microsoft.com/wix/2006/wi'>\n    <Product Id='*' Name='$(var.ProductName)' UpgradeCode='PUT-GUID-HERE'\n        Language='1033' Codepage='1252' Version='$(var.Version)'\n        Manufacturer='$(var.Author)'>\n        <Package Id='*' Keywords='Installer' Description='$(var.Description)'\n            Manufacturer='$(var.Author)' InstallerVersion='100' Languages='1033'\n            Compressed='yes' SummaryCodepage='1252' Platform='$(var.Platform)'/>\n        <Media Id='1' Cabinet='media1.cab' EmbedCab='yes'/>\n        <Directory Id='TARGETDIR' Name='SourceDir'>\n            <Directory Id='ProgramFiles64Folder' Name='PFiles'>\n                <Directory Id='INSTALLDIR' Name='$(var.ProductName)'>\n                    <Component Id='MainExecutable' Guid='PUT-GUID-HERE' Win64='yes'>\n                        <File Id='MainExe' Name='$(var.BinaryName).exe'\n                            DiskId='1' Source='target\\release\\$(var.BinaryName).exe'\n                            KeyPath='yes'/>\n                    </Component>\n                </Directory>\n            </Directory>\n        </Directory>\n        <Feature Id='Complete' Level='1'>\n            <ComponentRef Id='MainExecutable'/>\n        </Feature>\n        <UIRef Id='WixUI_Minimal'/>\n    </Product>\n</Wix>\n"@
}

/// The example document is not empty.
pub proof fn lemma_template_nonempty()
    ensures
        spec_template().len() > 0,
{
    reveal_strlit(
        "<?xml version='1.0' encoding='windows-1252'?>\n<Wix xmlns='http://schemas.microsoft.com/wix/2006/wi'>\n    <Product Id='*' Name='$(var.ProductName)' UpgradeCode='PUT-GUID-HERE'\n        Language='1033' Codepage='1252' Version='$(var.Version)'\n        Manufacturer='$(var.Author)'>\n        <Package Id='*' Keywords='Installer' Description='$(var.Description)'\n            Manufacturer='$(var.Author)' InstallerVersion='100' Languages='1033'\n            Compressed='yes' SummaryCodepage='1252' Platform='$(var.Platform)'/>\n        <Media Id='1' Cabinet='media1.cab' EmbedCab='yes'/>\n        <Directory Id='TARGETDIR' Name='SourceDir'>\n            <Directory Id='ProgramFiles64Folder' Name='PFiles'>\n                <Directory Id='INSTALLDIR' Name='$(var.ProductName)'>\n                    <Component Id='MainExecutable' Guid='PUT-GUID-HERE' Win64='yes'>\n                        <File Id='MainExe' Name='$(var.BinaryName).exe'\n                            DiskId='1' Source='target\\release\\$(var.BinaryName).exe'\n                            KeyPath='yes'/>\n                    </Component>\n                </Directory>\n            </Directory>\n        </Directory>\n        <Feature Id='Complete' Level='1'>\n            <ComponentRef Id='MainExecutable'/>\n        </Feature>\n        <UIRef Id='WixUI_Minimal'/>\n    </Product>\n</Wix>\n",
    );
}

/// Gets the example installer-definition document. The text is a fixed,
/// non-empty constant: every call returns the same document.
pub fn template() -> (r: &'static str)
    ensures
        r@ == spec_template(),
        r@.len() > 0,
{
    proof {
        lemma_template_nonempty();
    }
    "<?xml version='1.0' encoding='windows-1252'?>\n<Wix xmlns='http://schemas.microsoft.com/wix/2006/wi'>\n    <Product Id='*' Name='$(var.ProductName)' UpgradeCode='PUT-GUID-HERE'\n        Language='1033' Codepage='1252' Version='$(var.Version)'\n        Manufacturer='$(var.Author)'>\n        <Package Id='*' Keywords='Installer' Description='$(var.Description)'\n            Manufacturer='$(var.Author)' InstallerVersion='100' Languages='1033'\n            Compressed='yes' SummaryCodepage='1252' Platform='$(var.Platform)'/>\n        <Media Id='1' Cabinet='media1.cab' EmbedCab='yes'/>\n        <Directory Id='TARGETDIR' Name='SourceDir'>\n            <Directory Id='ProgramFiles64Folder' Name='PFiles'>\n                <Directory Id='INSTALLDIR' Name='$(var.ProductName)'>\n                    <Component Id='MainExecutable' Guid='PUT-GUID-HERE' Win64='yes'>\n                        <File Id='MainExe' Name='$(var.BinaryName).exe'\n                            DiskId='1' Source='target\\release\\$(var.BinaryName).exe'\n                            KeyPath='yes'/>\n                    </Component>\n                </Directory>\n            </Directory>\n        </Directory>\n        <Feature Id='Complete' Level='1'>\n            <ComponentRef Id='MainExecutable'/>\n        </Feature>\n        <UIRef Id='WixUI_Minimal'/>\n    </Product>\n</Wix>\n"
}

} // verus!
