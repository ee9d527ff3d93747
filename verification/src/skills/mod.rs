pub mod lanka;
