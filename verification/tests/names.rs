//! Tests for the token-name formatting: `"NFT #"` followed by the index
//! in base 10 with no leading zeros.

use nft_minting_machine::make_nft_name;

#[test]
fn test_name_of_zero() {
    assert_eq!(make_nft_name(0), "NFT #0");
}

#[test]
fn test_name_single_digit() {
    assert_eq!(make_nft_name(1), "NFT #1");
    assert_eq!(make_nft_name(7), "NFT #7");
    assert_eq!(make_nft_name(9), "NFT #9");
}

#[test]
fn test_name_multiple_digits() {
    assert_eq!(make_nft_name(10), "NFT #10");
    assert_eq!(make_nft_name(42), "NFT #42");
    assert_eq!(make_nft_name(907), "NFT #907");
    assert_eq!(make_nft_name(1000), "NFT #1000");
    assert_eq!(make_nft_name(123456789), "NFT #123456789");
}

#[test]
fn test_name_largest_index() {
    assert_eq!(make_nft_name(u64::MAX), "NFT #18446744073709551615");
}
