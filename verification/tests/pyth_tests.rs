use anchor_lang::prelude::Pubkey;
use anchor_lang::AccountSerialize;
use magic_trade::error::PlatformError;
use magic_trade::oracle::{OraclePrice, PriceFeed};
use pyth_solana_receiver_sdk::price_update::{PriceFeedMessage, PriceUpdateV2, VerificationLevel};

fn price_update(price: i64, exponent: i32, publish_time: i64) -> Vec<u8> {
    let update = PriceUpdateV2 {
        write_authority: Pubkey::default(),
        verification_level: VerificationLevel::Full,
        price_message: PriceFeedMessage {
            feed_id: [7u8; 32],
            price,
            conf: 12,
            exponent,
            publish_time,
            prev_publish_time: publish_time - 1,
            ema_price: price,
            ema_conf: 12,
        },
        posted_slot: 99,
    };
    let mut data: Vec<u8> = Vec::new();
    update.try_serialize(&mut data).unwrap();
    data
}

#[test]
fn decode_feed_reads_what_the_receiver_wrote() {
    let data = price_update(15_012_345_678, -8, 1_700_000_000);
    assert_eq!(
        OraclePrice::decode_feed(&data),
        Ok(PriceFeed { price: 15_012_345_678, exponent: -8, publish_time: 1_700_000_000 })
    );
}

#[test]
fn from_pyth_gives_the_fresh_price() {
    let data = price_update(15_012_345_678, -8, 1_700_000_000);
    assert_eq!(
        OraclePrice::from_pyth(&data, 1_700_000_030, 60),
        Ok(OraclePrice { price: 15_012_345_678, exponent: -8 })
    );
    assert_eq!(
        OraclePrice::from_pyth(&data, 1_700_000_060, 60),
        Ok(OraclePrice { price: 15_012_345_678, exponent: -8 })
    );
}

#[test]
fn from_pyth_refuses_a_stale_price() {
    let data = price_update(15_012_345_678, -8, 1_700_000_000);
    assert_eq!(
        OraclePrice::from_pyth(&data, 1_700_000_700, 600),
        Err(PlatformError::StaleOraclePrice)
    );
}

#[test]
fn from_pyth_refuses_a_negative_price() {
    let data = price_update(-5, -8, 1_700_000_000);
    assert_eq!(
        OraclePrice::from_pyth(&data, 1_700_000_000, 600),
        Err(PlatformError::InvalidOraclePrice)
    );
}

#[test]
fn from_pyth_refuses_data_that_does_not_decode() {
    assert_eq!(
        OraclePrice::from_pyth(&[], 0, 600),
        Err(PlatformError::InvalidOracleAccount)
    );
    assert_eq!(
        OraclePrice::from_pyth(&[1, 2, 3, 4, 5, 6, 7], 0, 600),
        Err(PlatformError::InvalidOracleAccount)
    );
    assert_eq!(
        OraclePrice::from_pyth(&[0u8; 8], 0, 600),
        Err(PlatformError::InvalidOracleAccount)
    );
    let data = price_update(1, 0, 0);
    assert_eq!(
        OraclePrice::from_pyth(&data[..data.len() - 1], 0, 600),
        Err(PlatformError::InvalidOracleAccount)
    );
}

#[test]
fn decode_feed_reads_a_hand_written_account() {
    let mut data: Vec<u8> = Vec::new();
    data.extend_from_slice(&[0xAA; 8]);
    data.extend_from_slice(&[0x11; 32]);
    data.push(0);
    data.push(5);
    data.extend_from_slice(&[0x22; 32]);
    data.extend_from_slice(&(-42i64).to_le_bytes());
    data.extend_from_slice(&7u64.to_le_bytes());
    data.extend_from_slice(&(-3i32).to_le_bytes());
    data.extend_from_slice(&1_650_000_000i64.to_le_bytes());
    data.extend_from_slice(&1_649_999_999i64.to_le_bytes());
    data.extend_from_slice(&(-40i64).to_le_bytes());
    data.extend_from_slice(&9u64.to_le_bytes());
    data.extend_from_slice(&123u64.to_le_bytes());
    assert_eq!(
        OraclePrice::decode_feed(&data),
        Ok(PriceFeed { price: -42, exponent: -3, publish_time: 1_650_000_000 })
    );
    data[40] = 9;
    assert_eq!(OraclePrice::decode_feed(&data), Err(PlatformError::InvalidOracleAccount));
}
